use processing_render::compute::{
    buffer_read, buffer_read_element, buffer_size, buffer_write, buffer_write_element,
    compute_entry_point, create_buffer, create_buffer_with_data, invalidate_rw_buffers,
    layout_slots, mesh_binding_step, pipeline_wait_step, property_binding, set_binding,
    tolerate_unknown_property, Access,
    MeshBindingStep, ParamCategory, PipelineWait, PropertyBinding, ValueKind, MAX_PIPELINE_WAIT,
};
use processing_render::error::{InvalidArgument, ProcessingError};

#[test]
fn new_buffers_are_zeroed_and_synced() {
    let b = create_buffer(8);
    assert_eq!(b.size(), 8);
    assert!(b.is_synced());
    assert!(!b.is_bound_rw());
    assert_eq!(b.read_bytes(0, 8), vec![0u8; 8]);
}

#[test]
fn write_then_read_gives_the_written_bytes() {
    let mut b = create_buffer_with_data(vec![1, 2, 3, 4, 5, 6]);
    assert_eq!(b.write_range(2, &[9, 9], false), Ok(Access::Ready(())));
    assert_eq!(b.read_range(0, 6), Ok(Access::Ready(vec![1, 2, 9, 9, 5, 6])));
    assert_eq!(b.read_range(3, 2), Ok(Access::Ready(vec![9, 5])));
}

#[test]
fn out_of_range_accesses_are_refused() {
    let mut b = create_buffer(4);
    assert_eq!(
        b.write_range(3, &[1, 2], false),
        Err(ProcessingError::InvalidArgument(InvalidArgument::BufferOutOfBounds {
            offset: 3,
            len: 2,
            size: 4
        }))
    );
    assert_eq!(
        b.read_range(u64::MAX, 1),
        Err(ProcessingError::InvalidArgument(InvalidArgument::OffsetOverflow))
    );
    assert_eq!(
        b.write_range(0, &[1, 2, 3], true),
        Err(ProcessingError::InvalidArgument(InvalidArgument::BufferSizeMismatch {
            len: 3,
            size: 4
        }))
    );
    assert_eq!(b.read_range(0, 4), Ok(Access::Ready(vec![0, 0, 0, 0])));
}

#[test]
fn read_write_binding_invalidates_at_frame_end() {
    let mut b = create_buffer_with_data(vec![7, 7]);
    b.bind(true);
    assert!(!b.is_bound_rw());
    b.bind(false);
    assert!(b.is_bound_rw());
    let mut all = vec![b, create_buffer(1)];
    invalidate_rw_buffers(&mut all);
    assert!(!all[0].is_synced());
    assert!(all[1].is_synced());
    assert_eq!(all[0].read_range(0, 2), Ok(Access::NeedsSync));
    assert_eq!(all[0].write_range(0, &[1, 1], true), Ok(Access::NeedsSync));
    all[0].sync_from_gpu(vec![3, 4]);
    assert_eq!(all[0].read_range(0, 2), Ok(Access::Ready(vec![3, 4])));
}

#[test]
fn property_bindings_follow_the_slot_category() {
    assert_eq!(
        property_binding(ValueKind::Buffer, Some(ParamCategory::Storage { read_only: false })),
        Ok(PropertyBinding::Buffer { read_write: true })
    );
    assert_eq!(
        property_binding(ValueKind::Buffer, Some(ParamCategory::Uniform)),
        Err(ProcessingError::InvalidArgument(InvalidArgument::PropertyKindMismatch))
    );
    assert_eq!(
        property_binding(ValueKind::MeshIndex, Some(ParamCategory::Storage { read_only: false })),
        Err(ProcessingError::InvalidArgument(InvalidArgument::MeshBindingReadWrite))
    );
    assert_eq!(
        property_binding(ValueKind::MeshAttribute, Some(ParamCategory::Storage { read_only: true })),
        Ok(PropertyBinding::MeshAttribute)
    );
    assert_eq!(
        property_binding(ValueKind::Texture, Some(ParamCategory::Sampler)),
        Ok(PropertyBinding::Texture)
    );
    assert_eq!(property_binding(ValueKind::Texture, None), Err(ProcessingError::UnknownShaderProperty));
    assert_eq!(property_binding(ValueKind::Plain, None), Ok(PropertyBinding::Field));
}

#[test]
fn layout_slots_fill_gaps_with_empty_layouts() {
    assert_eq!(layout_slots(&vec![0, 2]), vec![Some(0), None, Some(1)]);
    assert_eq!(layout_slots(&vec![]), Vec::<Option<usize>>::new());
    assert_eq!(layout_slots(&vec![1]), vec![None, Some(0)]);
}

#[test]
fn first_compute_entry_point_is_used() {
    assert_eq!(compute_entry_point(&vec![false, true, true]), Ok(1));
    assert_eq!(compute_entry_point(&vec![false]), Err(ProcessingError::NoComputeEntryPoint));
}

#[test]
fn pipeline_waits_are_bounded() {
    assert_eq!(pipeline_wait_step(1, true), PipelineWait::Ready);
    assert_eq!(pipeline_wait_step(1, false), PipelineWait::Again);
    assert_eq!(
        pipeline_wait_step(MAX_PIPELINE_WAIT, false),
        PipelineWait::Fail(ProcessingError::PipelineNotReady(64))
    );
}

#[test]
fn mesh_bindings_bind_only_in_their_group() {
    assert_eq!(mesh_binding_step(None, 0), MeshBindingStep::Unknown);
    assert_eq!(mesh_binding_step(Some((1, 3)), 0), MeshBindingStep::Skip);
    assert_eq!(mesh_binding_step(Some((0, 3)), 0), MeshBindingStep::Bind(3));
}

#[test]
fn binding_slots_are_replaced_in_place_or_appended() {
    let mut b = vec![(0u32, 'a'), (2, 'b')];
    set_binding(&mut b, 2, 'c');
    assert_eq!(b, vec![(0, 'a'), (2, 'c')]);
    set_binding(&mut b, 5, 'd');
    assert_eq!(b, vec![(0, 'a'), (2, 'c'), (5, 'd')]);
}

#[test]
fn optional_properties_tolerate_unknown_names_only() {
    assert_eq!(tolerate_unknown_property(Err(ProcessingError::UnknownShaderProperty)), Ok(()));
    assert_eq!(
        tolerate_unknown_property(Err(ProcessingError::BufferNotFound)),
        Err(ProcessingError::BufferNotFound)
    );
    assert_eq!(tolerate_unknown_property(Ok(())), Ok(()));
}

#[test]
fn whole_buffer_writes_must_match_the_size() {
    let mut b = create_buffer(4);
    assert_eq!(
        buffer_write(&mut b, &[1, 2, 3]),
        Err(ProcessingError::InvalidArgument(InvalidArgument::BufferSizeMismatch { len: 3, size: 4 }))
    );
    assert_eq!(buffer_read(&b), Ok(Access::Ready(vec![0, 0, 0, 0])));
    assert_eq!(buffer_write(&mut b, &[1, 2, 3, 4]), Ok(Access::Ready(())));
    assert_eq!(buffer_read(&b), Ok(Access::Ready(vec![1, 2, 3, 4])));
    assert_eq!(buffer_size(&b), 4);
}

#[test]
fn element_writes_round_trip_and_keep_the_rest() {
    let mut b = create_buffer_with_data(vec![9, 9, 9, 9, 9, 9]);
    assert_eq!(buffer_write_element(&mut b, 2, &[1, 2]), Ok(Access::Ready(())));
    assert_eq!(buffer_read_element(&b, 2, 2), Ok(Access::Ready(vec![1, 2])));
    assert_eq!(buffer_read(&b), Ok(Access::Ready(vec![9, 9, 1, 2, 9, 9])));
    assert_eq!(
        buffer_read_element(&b, 5, 2),
        Err(ProcessingError::InvalidArgument(InvalidArgument::BufferOutOfBounds {
            offset: 5,
            len: 2,
            size: 6
        }))
    );
}

#[test]
fn out_of_sync_writes_succeed_after_a_sync() {
    let mut b = create_buffer_with_data(vec![0, 0]);
    b.bind(false);
    let mut all = vec![b];
    invalidate_rw_buffers(&mut all);
    let mut b = all.pop().unwrap();
    assert_eq!(buffer_write(&mut b, &[5, 6]), Ok(Access::NeedsSync));
    b.sync_from_gpu(vec![7, 7]);
    assert_eq!(buffer_write(&mut b, &[5, 6]), Ok(Access::Ready(())));
    assert_eq!(buffer_read(&b), Ok(Access::Ready(vec![5, 6])));
}
