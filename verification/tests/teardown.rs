use game_window::renderer::{destruction_order, first_matching_index, GpuObjectKind};

#[test]
fn gpu_objects_are_destroyed_in_reverse_creation_order() {
    let order = destruction_order();
    assert_eq!(
        order,
        vec![
            GpuObjectKind::Semaphore,
            GpuObjectKind::Fence,
            GpuObjectKind::Pipeline,
            GpuObjectKind::PipelineLayout,
            GpuObjectKind::RenderPass,
            GpuObjectKind::CommandPool,
            GpuObjectKind::Surface,
        ]
    );
}

#[test]
fn first_matching_index_picks_the_first_qualifying_candidate() {
    assert_eq!(first_matching_index(&vec![false, true, true]), Some(1));
    assert_eq!(first_matching_index(&vec![true]), Some(0));
}

#[test]
fn first_matching_index_reports_when_nothing_qualifies() {
    assert_eq!(first_matching_index(&vec![false, false]), None);
    let no_candidates: Vec<bool> = vec![];
    assert_eq!(first_matching_index(&no_candidates), None);
}
