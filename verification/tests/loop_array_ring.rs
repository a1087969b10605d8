use ball_in_a_box::loop_array::LoopArray;

#[test]
fn starts_empty() {
    let ring: LoopArray<u8, 3> = LoopArray::new();
    assert_eq!(ring.len(), 0);
}

#[test]
fn push_grows_until_capacity() {
    let mut ring: LoopArray<u8, 3> = LoopArray::new();
    ring.push(1);
    ring.push(2);
    assert_eq!(ring.len(), 2);
    ring.push(3);
    assert_eq!(ring.len(), 3);
}

#[test]
fn push_past_capacity_overwrites_the_oldest() {
    let mut ring: LoopArray<u8, 3> = LoopArray::new();
    ring.push(1);
    ring.push(2);
    ring.push(3);
    ring.push(4);
    assert_eq!(ring.len(), 3);
    assert_eq!(*ring.get_mut(0), 2);
    assert_eq!(*ring.get_mut(1), 3);
    assert_eq!(*ring.get_mut(2), 4);
}

#[test]
fn get_mut_writes_through() {
    let mut ring: LoopArray<u16, 4> = LoopArray::new();
    ring.push(10);
    ring.push(20);
    *ring.get_mut(1) = 99;
    assert_eq!(*ring.get_mut(0), 10);
    assert_eq!(*ring.get_mut(1), 99);
}

#[test]
fn remove_amount_drops_the_oldest() {
    let mut ring: LoopArray<u8, 4> = LoopArray::new();
    ring.push(1);
    ring.push(2);
    ring.push(3);
    ring.remove_amount(2);
    assert_eq!(ring.len(), 1);
    assert_eq!(*ring.get_mut(0), 3);
}

#[test]
fn remove_nothing_from_a_saturated_ring_empties_it() {
    let mut ring: LoopArray<u8, 3> = LoopArray::new();
    ring.push(1);
    ring.push(2);
    ring.push(3);
    ring.remove_amount(0);
    assert_eq!(ring.len(), 0);
}

#[test]
fn clear_forgets_everything() {
    let mut ring: LoopArray<u8, 3> = LoopArray::new();
    ring.push(7);
    ring.push(8);
    ring.clear();
    assert_eq!(ring.len(), 0);
    ring.push(9);
    assert_eq!(ring.len(), 1);
    assert_eq!(*ring.get_mut(0), 9);
}
