use ens::Entity;
use ens::Parent;

#[test]
fn parent_get_returns_entity() {
    let parent = Parent(Entity {
        index: 4,
        generation: 2,
    });
    assert_eq!(
        parent.get(),
        Entity {
            index: 4,
            generation: 2,
        }
    );
}

#[test]
fn parent_as_slice_has_one_element() {
    let parent = Parent(Entity {
        index: 9,
        generation: 1,
    });
    let slice = parent.as_slice();
    assert_eq!(slice.len(), 1);
    assert_eq!(slice[0], parent.get());
}
