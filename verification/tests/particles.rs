
use processing_render::entity::EntityId;
use processing_render::error::{InvalidArgument, ProcessingError};
use processing_render::geometry::attribute::AttributeFormat;
use processing_render::geometry::Topology;
use processing_render::particles::algebra::{
    check_components, check_extract, check_gather_target, check_lookup_components, check_pack,
    ensure_no_alias, particle_workgroups, select_variant, Variant,
};
use processing_render::particles::compact::{compact_count, compact_plan, CompactPlan};
use processing_render::particles::connectivity::{connectivity_build, plan, ConnectivityBuild};
use processing_render::particles::emit::{
    advance_emit_head, check_emit_count, emit_attribute_writes, plan_gpu_emit, GpuEmit, RingWrite,
};
use processing_render::particles::grid::{
    grid_buffers, grid_dispatches, num_cells, GridBuffers, GridDispatches,
};
use processing_render::particles::prims::{args_reset_words, primitives_layout, verts_per_prim};
use processing_render::particles::reduce::{reduce_plan, EmptyReduction, ReducePass, ReducePlan, REDUCE_OP_MIN};
use processing_render::particles::scan::{
    prefix_sum_plan, scratch_action, ScanKernel, ScanPass, ScratchAction,
};
use processing_render::particles::sort::{bitonic_sort_plan, is_power_of_two};
use processing_render::particles::{
    attribute_buffer_bytes, convention_seed_bytes, find_same_name, indexed_draw_args,
    materialize_attribute, widen_indices, AttributeSeed, Connectivity, Materialized, Particles,
};

fn bad(a: InvalidArgument) -> ProcessingError {
    ProcessingError::InvalidArgument(a)
}

#[test]
fn emit_counts_are_checked_against_capacity() {
    assert_eq!(check_emit_count(0, 10), Ok(false));
    assert_eq!(check_emit_count(4, 10), Ok(true));
    assert_eq!(
        check_emit_count(11, 10),
        Err(bad(InvalidArgument::EmitExceedsCapacity { emitted: 11, capacity: 10 }))
    );
}

#[test]
fn emitted_bytes_wrap_around_the_ring() {
    let (first, second) = emit_attribute_writes(10, 8, 4, 4, 16).unwrap();
    assert_eq!(first, RingWrite { dst_offset: 32, src_start: 0, src_end: 8 });
    assert_eq!(second, Some(RingWrite { dst_offset: 0, src_start: 8, src_end: 16 }));
    let (first, second) = emit_attribute_writes(10, 2, 4, 4, 16).unwrap();
    assert_eq!(first, RingWrite { dst_offset: 8, src_start: 0, src_end: 16 });
    assert_eq!(second, None);
    assert_eq!(
        emit_attribute_writes(10, 2, 4, 4, 15),
        Err(bad(InvalidArgument::EmitByteCount { expected: 16, got: 15 }))
    );
    assert_eq!(advance_emit_head(8, 4, 10), 2);
}

#[test]
fn gpu_emits_plan_base_count_and_next_head() {
    assert_eq!(
        plan_gpu_emit(10, 8, 4),
        Ok(Some(GpuEmit { base: 8, count: 4, capacity: 10, workgroups: 1, next_head: 2 }))
    );
    assert_eq!(plan_gpu_emit(10, 8, 0), Ok(None));
    assert_eq!(
        plan_gpu_emit(10, 0, 11),
        Err(bad(InvalidArgument::EmitExceedsCapacity { emitted: 11, capacity: 10 }))
    );
}

#[test]
fn prefix_sums_scan_up_then_add_down() {
    let (levels, passes) = prefix_sum_plan(4000).unwrap();
    assert_eq!(levels, vec![1000, 4, 1]);
    assert_eq!(
        passes,
        vec![
            ScanPass { kernel: ScanKernel::Block, level: 0, workgroups: 4 },
            ScanPass { kernel: ScanKernel::Block, level: 1, workgroups: 1 },
            ScanPass { kernel: ScanKernel::Add, level: 0, workgroups: 4 },
        ]
    );
    let (levels, passes) = prefix_sum_plan(4).unwrap();
    assert_eq!(levels, vec![1, 1]);
    assert_eq!(passes, vec![ScanPass { kernel: ScanKernel::Block, level: 0, workgroups: 1 }]);
    assert!(prefix_sum_plan(0).is_none());
}

#[test]
fn scratch_buffers_are_reused_when_big_enough() {
    assert_eq!(scratch_action(Some((EntityId(3), 64)), 32, false), ScratchAction::Reuse(EntityId(3)));
    assert_eq!(
        scratch_action(Some((EntityId(3), 64)), 32, true),
        ScratchAction::Create { destroy: Some(EntityId(3)) }
    );
    assert_eq!(scratch_action(None, 32, false), ScratchAction::Create { destroy: None });
}

#[test]
fn bitonic_sorts_need_powers_of_two() {
    let p = bitonic_sort_plan(8, 8).unwrap().unwrap();
    assert_eq!(p.workgroups, 1);
    assert_eq!(p.passes, vec![(2, 1), (4, 2), (4, 1), (8, 4), (8, 2), (8, 1)]);
    assert!(matches!(bitonic_sort_plan(1, 0), Ok(None)));
    assert!(matches!(
        bitonic_sort_plan(6, 6),
        Err(ProcessingError::InvalidArgument(InvalidArgument::NotPowerOfTwo(6)))
    ));
    assert!(matches!(
        bitonic_sort_plan(8, 7),
        Err(ProcessingError::InvalidArgument(InvalidArgument::LengthMismatch))
    ));
    assert!(is_power_of_two(1024));
    assert!(!is_power_of_two(0));
}

#[test]
fn reductions_shrink_by_blocks_to_one() {
    match reduce_plan(1000, 0) {
        ReducePlan::Passes(p) => assert_eq!(
            p,
            vec![ReducePass { count: 1000, workgroups: 4 }, ReducePass { count: 4, workgroups: 1 }]
        ),
        ReducePlan::Empty(_) => panic!("expected passes"),
    }
    assert!(matches!(reduce_plan(0, REDUCE_OP_MIN), ReducePlan::Empty(EmptyReduction::PositiveInfinity)));
    assert!(matches!(reduce_plan(0, 0), ReducePlan::Empty(EmptyReduction::Zero)));
}

#[test]
fn compaction_plans_and_reads_the_count() {
    assert_eq!(
        compact_plan(100),
        Some(CompactPlan { scanned_bytes: 404, flag_workgroups: 2, scatter_workgroups: 2, count_offset: 400 })
    );
    assert_eq!(compact_plan(0), None);
    assert_eq!(compact_count(&[5, 1, 0, 0, 9]), 261);
}

#[test]
fn spatial_grid_sizes() {
    assert_eq!(num_cells([4, 5, 6]), 120);
    assert_eq!(
        grid_buffers(120, 0),
        GridBuffers { offsets_bytes: 484, cursor_bytes: 480, sorted_bytes: 4 }
    );
    assert_eq!(
        grid_dispatches(120, 1000),
        GridDispatches { clear: 1, count: 16, copy: 1, scatter: 16 }
    );
}

#[test]
fn connectivity_chains_lines() {
    assert_eq!(plan(Topology::LineList, 5), Ok((8, 0)));
    assert_eq!(plan(Topology::LineList, 1), Err(bad(InvalidArgument::TooFewParticles)));
    assert_eq!(plan(Topology::PointList, 5), Err(bad(InvalidArgument::UnsupportedTopology)));
    assert_eq!(
        connectivity_build(Topology::LineList, 100),
        Ok(ConnectivityBuild { index_buffer_bytes: 792, indirect_buffer_bytes: 20, mode: 0, workgroups: 2 })
    );
}

#[test]
fn primitive_targets_size_their_vertices() {
    assert_eq!(verts_per_prim(Topology::TriangleList), Ok(3));
    assert_eq!(verts_per_prim(Topology::LineStrip), Err(bad(InvalidArgument::UnsupportedTopology)));
    let l = primitives_layout(Topology::LineList, 10).unwrap();
    assert_eq!(l.verts_per_prim, 2);
    assert_eq!(l.capacity_verts, 20);
    assert_eq!(l.initial_args, vec![0, 1, 0, 0, 0, 20, 2, 0]);
    assert!(matches!(
        primitives_layout(Topology::TriangleList, u32::MAX),
        Err(ProcessingError::InvalidArgument(InvalidArgument::CapacityOverflow))
    ));
    assert_eq!(args_reset_words(), vec![0, 1, 0, 0, 0]);
}

#[test]
fn buffer_algebra_argument_checks() {
    assert_eq!(check_components(4), Ok(()));
    assert_eq!(check_components(5), Err(bad(InvalidArgument::ComponentsOutOfRange(5))));
    assert_eq!(ensure_no_alias(EntityId(1), &[EntityId(2), EntityId(1)]), Err(bad(InvalidArgument::DstAliasesOperand)));
    assert_eq!(select_variant(EntityId(1), EntityId(1), &[EntityId(2)]), Ok(Variant::InPlace));
    assert_eq!(select_variant(EntityId(3), EntityId(1), &[EntityId(2)]), Ok(Variant::OutOfPlace));
    assert_eq!(particle_workgroups(300, 3), 2);
    assert_eq!(check_lookup_components(3), Err(bad(InvalidArgument::LookupComponents(3))));
    assert_eq!(
        check_extract(3, 3),
        Err(bad(InvalidArgument::ComponentIndexOutOfRange { index: 3, components: 3 }))
    );
    assert_eq!(check_pack(EntityId(9), &[EntityId(1), EntityId(2), EntityId(3)]), Ok(3));
    assert_eq!(check_pack(EntityId(9), &[EntityId(1)]), Err(bad(InvalidArgument::ComponentsOutOfRange(1))));
    assert_eq!(
        check_gather_target(EntityId(1), EntityId(2), EntityId(1)),
        Err(bad(InvalidArgument::GatherOutAliases))
    );
}

#[test]
fn particle_systems_track_buffers_and_connectivity() {
    let mut p = Particles::new(100, &[], None);
    assert_eq!(p.buffer(EntityId(5)), None);
    assert_eq!(p.attribute_buffers(), Vec::new());
    p.insert_buffer(EntityId(5), EntityId(50));
    assert_eq!(p.buffer(EntityId(5)), Some(EntityId(50)));
    let c = Connectivity { index_buffer: EntityId(7), indirect_buffer: EntityId(8) };
    assert_eq!(p.replace_connectivity(c), None);
    assert_eq!(p.replace_connectivity(c), Some(c));
    assert_eq!(p.emit_head, 0);
}

#[test]
fn particle_systems_start_with_their_attribute_buffers() {
    let pairs = [(EntityId(1), EntityId(10)), (EntityId(2), EntityId(20)), (EntityId(1), EntityId(11))];
    let mut p = Particles::new(64, &pairs, None);
    assert_eq!(p.capacity, 64);
    assert_eq!(p.buffer(EntityId(1)), Some(EntityId(11)));
    assert_eq!(p.buffer(EntityId(2)), Some(EntityId(20)));
    assert_eq!(p.buffer(EntityId(3)), None);
    let mut all = p.attribute_buffers();
    all.sort_by_key(|(a, _)| a.0);
    assert_eq!(all, vec![(EntityId(1), EntityId(11)), (EntityId(2), EntityId(20))]);
    p.insert_buffer(EntityId(2), EntityId(21));
    assert_eq!(p.buffer(EntityId(2)), Some(EntityId(21)));
    assert_eq!(p.attribute_buffers().len(), 2);
}

#[test]
fn destroying_a_system_takes_its_buffers_draws_and_connectivity() {
    let pairs = [(EntityId(1), EntityId(10)), (EntityId(2), EntityId(20))];
    let mut p = Particles::new(8, &pairs, None);
    assert_eq!(p.owned_entities().len(), 2);
    p.draw_entity = Some(EntityId(30));
    p.raster_draw_entity = Some(EntityId(31));
    p.replace_connectivity(Connectivity { index_buffer: EntityId(40), indirect_buffer: EntityId(41) });
    let owned = p.owned_entities();
    assert_eq!(owned.len(), 6);
    assert_eq!(&owned[2..], &[EntityId(30), EntityId(31), EntityId(40), EntityId(41)]);
    let mut buffers = owned[..2].to_vec();
    buffers.sort_by_key(|e| e.0);
    assert_eq!(buffers, vec![EntityId(10), EntityId(20)]);
}

#[test]
fn particle_buffer_helpers() {
    assert_eq!(attribute_buffer_bytes(100, AttributeFormat::Float3), 1200);
    assert_eq!(indexed_draw_args(12), [12, 1, 0, 0, 0]);
    assert_eq!(widen_indices(&[1, 65535]), vec![1, 65535]);
    let one = 1.0f32.to_le_bytes();
    let mut life = Vec::new();
    life.extend_from_slice(&one);
    assert_eq!(convention_seed_bytes("life", AttributeFormat::Float), life);
}

#[test]
fn attributes_materialize_once_per_name() {
    let others = [(EntityId(1), false, AttributeFormat::Float), (EntityId(2), true, AttributeFormat::Float2)];
    assert_eq!(find_same_name(&others, AttributeFormat::Float2), Ok(Some(EntityId(2))));
    assert_eq!(
        find_same_name(&others, AttributeFormat::Float),
        Err(bad(InvalidArgument::AttributeAlreadyPresent))
    );
    assert_eq!(
        materialize_attribute(None, &others, &AttributeSeed::Ensure, "mass", AttributeFormat::Float2, 3),
        Ok(Materialized::Existing(EntityId(2)))
    );
    assert_eq!(
        materialize_attribute(None, &[], &AttributeSeed::Declare(Some(vec![1, 2, 3, 4])), "mass", AttributeFormat::Float, 2),
        Ok(Materialized::Create(vec![1, 2, 3, 4, 1, 2, 3, 4]))
    );
    assert_eq!(
        materialize_attribute(None, &[], &AttributeSeed::Declare(Some(vec![1, 2])), "mass", AttributeFormat::Float, 2),
        Err(bad(InvalidArgument::DefaultSizeMismatch { got: 2, expected: 4 }))
    );
    assert_eq!(
        materialize_attribute(Some(EntityId(4)), &[], &AttributeSeed::Declare(None), "mass", AttributeFormat::Float, 2),
        Err(bad(InvalidArgument::AttributeAlreadyPresent))
    );
    assert_eq!(
        materialize_attribute(None, &[], &AttributeSeed::Ensure, "mass", AttributeFormat::Float, 2),
        Ok(Materialized::Create(vec![0; 8]))
    );
}
