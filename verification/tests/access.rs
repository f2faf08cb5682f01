use ens::ComponentTicks;
use ens::DetectChanges;
use ens::DetectChangesMut;
use ens::Mut;
use ens::NonSendMut;
use ens::Res;
use ens::ResMut;
use ens::Resource;
use ens::Ref;
use ens::Tick;
use ens::Ticks;
use ens::TicksMut;
use ens::World;

struct R;

impl Resource for R {}

#[derive(PartialEq)]
struct R2(u8);

impl Resource for R2 {}

#[test]
fn mut_from_res_mut() {
    let mut component_ticks = ComponentTicks {
        added: Tick::new(1),
        changed: Tick::new(2),
    };
    let ticks = TicksMut {
        added: &mut component_ticks.added,
        changed: &mut component_ticks.changed,
        last_run: Tick::new(3),
        this_run: Tick::new(4),
    };
    let mut res = R {};
    let res_mut = ResMut {
        value: &mut res,
        ticks,
    };

    let into_mut: Mut<R> = res_mut.into();
    assert_eq!(1, into_mut.ticks.added.get());
    assert_eq!(2, into_mut.ticks.changed.get());
    assert_eq!(3, into_mut.ticks.last_run.get());
    assert_eq!(4, into_mut.ticks.this_run.get());
}

#[test]
fn mut_new() {
    let mut component_ticks = ComponentTicks {
        added: Tick::new(1),
        changed: Tick::new(3),
    };
    let mut res = R {};

    let val = Mut::new(
        &mut res,
        &mut component_ticks.added,
        &mut component_ticks.changed,
        Tick::new(2), // last_run
        Tick::new(4), // this_run
    );

    assert!(!val.is_added());
    assert!(val.is_changed());
}

#[test]
fn mut_from_non_send_mut() {
    let mut component_ticks = ComponentTicks {
        added: Tick::new(1),
        changed: Tick::new(2),
    };
    let ticks = TicksMut {
        added: &mut component_ticks.added,
        changed: &mut component_ticks.changed,
        last_run: Tick::new(3),
        this_run: Tick::new(4),
    };
    let mut res = R {};
    let non_send_mut = NonSendMut {
        value: &mut res,
        ticks,
    };

    let into_mut: Mut<R> = non_send_mut.into();
    assert_eq!(1, into_mut.ticks.added.get());
    assert_eq!(2, into_mut.ticks.changed.get());
    assert_eq!(3, into_mut.ticks.last_run.get());
    assert_eq!(4, into_mut.ticks.this_run.get());
}

#[test]
fn map_mut() {
    struct Outer(i64);

    let last_run = Tick::new(2);
    let this_run = Tick::new(3);
    let mut component_ticks = ComponentTicks {
        added: Tick::new(1),
        changed: Tick::new(2),
    };
    let ticks = TicksMut {
        added: &mut component_ticks.added,
        changed: &mut component_ticks.changed,
        last_run,
        this_run,
    };

    let mut outer = Outer(0);
    let ptr = Mut {
        value: &mut outer,
        ticks,
    };
    assert!(!ptr.is_changed());

    // Narrow to the inner field without flagging a change.
    let (value, inner_ticks) = ptr.into_parts();
    let mut inner = Mut {
        value: &mut value.0,
        ticks: inner_ticks,
    };
    assert!(!inner.is_changed());

    // Mutate the inner value.
    *inner.as_mut() = 64;
    assert!(inner.is_changed());
    drop(inner);
    // Modifying one field of a component should flag a change for the whole component.
    assert!(component_ticks.is_changed(last_run, this_run));
}

#[test]
fn set_if_neq() {
    let mut world = World::new();

    let mut value = R2(0);
    let mut cells = ComponentTicks::new(world.change_tick());
    // Resources are changed when first added.
    world.increment_change_tick();
    // This is required to update the world's last change tick.
    world.clear_trackers();

    let mut r = ResMut {
        value: &mut value,
        ticks: TicksMut::from_tick_cells(&mut cells, world.last_change_tick(), world.change_tick()),
    };
    assert!(!r.is_changed(), "Resource must begin unchanged.");

    r.set_if_neq(R2(0));
    assert!(
        !r.is_changed(),
        "Resource must not be changed after setting to the same value."
    );

    r.set_if_neq(R2(3));
    assert!(
        r.is_changed(),
        "Resource must be changed after setting to a different value."
    );
}

#[test]
fn as_deref_mut() {
    let mut world = World::new();

    let mut value = R2(0);
    let mut cells = ComponentTicks::new(world.change_tick());
    // Resources are changed when first added.
    world.increment_change_tick();
    // This is required to update the world's last change tick.
    world.clear_trackers();

    let mut r = ResMut {
        value: &mut value,
        ticks: TicksMut::from_tick_cells(&mut cells, world.last_change_tick(), world.change_tick()),
    };
    assert!(!r.is_changed(), "Resource must begin unchanged.");

    let outer = r.reborrow();
    let (inner_value, inner_ticks) = outer.into_parts();
    let mut r = Mut {
        value: &mut inner_value.0,
        ticks: inner_ticks,
    };
    assert!(
        !r.is_changed(),
        "Dereferencing should not mark the item as changed yet"
    );

    r.set_if_neq(3);
    assert!(
        r.is_changed(),
        "Resource must be changed after setting to a different value."
    );
}

#[test]
fn res_clone_and_into_inner() {
    let ticks = ComponentTicks {
        added: Tick::new(1),
        changed: Tick::new(2),
    };
    let res_value = R2(9);
    let res = Res {
        value: &res_value,
        ticks: Ticks::from_tick_cells(&ticks, Tick::new(0), Tick::new(3)),
    };
    let copy = Res::clone(&res);
    assert_eq!(copy.last_changed().get(), 2);
    assert_eq!(res.into_inner().0, 9);
    assert_eq!(copy.into_inner().0, 9);
}

#[test]
fn ref_new_and_map() {
    let added = Tick::new(1);
    let changed = Tick::new(2);
    let outer = (5u32, 7u32);
    let r = Ref::new(&outer, &added, &changed, Tick::new(0), Tick::new(3));
    assert!(r.is_added());
    assert!(r.is_changed());
    let second = r.map(|v| &v.1);
    assert_eq!(*second.into_inner(), 7);
}

#[test]
fn bypass_change_detection_stays_invisible() {
    let mut pair = ComponentTicks::new(Tick::new(1));
    let mut value = R2(0);
    let last_run = Tick::new(1);
    let this_run = Tick::new(2);
    let mut m = Mut {
        value: &mut value,
        ticks: TicksMut::from_tick_cells(&mut pair, last_run, this_run),
    };
    assert!(!m.is_changed());
    *m.bypass_change_detection() = R2(8);
    assert!(!m.is_changed(), "A bypassed write must stay invisible.");
    *m.as_mut() = R2(9);
    assert!(m.is_changed(), "A tracked write must be visible.");
    drop(m);
    assert_eq!(pair.changed.get(), 2);
}

#[test]
fn replace_if_neq_returns_previous() {
    let mut pair = ComponentTicks::new(Tick::new(1));
    let mut value = R2(4);
    let mut m = Mut {
        value: &mut value,
        ticks: TicksMut::from_tick_cells(&mut pair, Tick::new(1), Tick::new(2)),
    };
    assert!(m.replace_if_neq(R2(4)).is_none());
    assert!(!m.is_changed());
    let previous = m.replace_if_neq(R2(6));
    assert!(m.is_changed());
    assert!(matches!(previous, Some(R2(4))));
}

#[test]
fn set_last_changed_overwrites_stamp() {
    let mut pair = ComponentTicks::new(Tick::new(1));
    let mut value = R2(4);
    let mut m = Mut {
        value: &mut value,
        ticks: TicksMut::from_tick_cells(&mut pair, Tick::new(1), Tick::new(2)),
    };
    m.set_changed();
    assert_eq!(m.last_changed().get(), 2);
    m.set_last_changed(Tick::new(7));
    assert_eq!(m.last_changed().get(), 7);
}

#[test]
fn downgrade_keeps_window() {
    let mut pair = ComponentTicks::new(Tick::new(5));
    let mut value = R2(4);
    let m = ResMut {
        value: &mut value,
        ticks: TicksMut::from_tick_cells(&mut pair, Tick::new(4), Tick::new(6)),
    };
    let shared = m.into_readonly();
    assert!(shared.is_added());
    assert_eq!(shared.last_changed().get(), 5);
}
