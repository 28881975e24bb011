use rsfunge::interpreter::{FungeThread, ThreadList};
use rsfunge::vector::Vector3;

fn thread_at(x: i32) -> FungeThread {
    FungeThread::new(Vector3::new_xyz(x, 0, 0), Vector3::new_xyz(1, 0, 0))
}

#[test]
fn a_new_thread_is_blank() {
    let mut thread = FungeThread::new(Vector3::new_xyz(1, 2, 3), Vector3::new_xyz(0, -1, 0));
    assert_eq!(thread.ip.elements, [1, 2, 3]);
    assert_eq!(thread.delta.elements, [0, -1, 0]);
    assert_eq!(thread.storage_offset.elements, [0, 0, 0]);
    assert_eq!(thread.get_storage_offset().elements, [0, 0, 0]);
    assert!(!thread.string_mode);
    assert_eq!(thread.stack_stack.num_stacks(), 1);
    assert_eq!(thread.stack_stack.top_stack().depth(), 0);
    for letter in 0..26 {
        assert!(thread.alphabet_inst_table.find_inst(letter).is_none());
    }
}

#[test]
fn threads_keep_their_order() {
    let mut list = ThreadList::new();
    assert_eq!(list.num(), 0);
    assert!(list.get(0).is_none());
    assert!(list.get_mut(0).is_none());
    assert!(list.remove(0).is_none());
    for x in 0..4 {
        list.test_add(thread_at(x));
    }
    assert_eq!(list.num(), 4);
    for x in 0..4 {
        assert_eq!(list.get(x as u32).unwrap().ip.x(), x);
    }
    assert!(list.get(4).is_none());
    let removed = list.remove(1).unwrap();
    assert_eq!(removed.ip.x(), 1);
    assert_eq!(list.num(), 3);
    assert_eq!(list.get(0).unwrap().ip.x(), 0);
    assert_eq!(list.get(1).unwrap().ip.x(), 2);
    assert_eq!(list.get(2).unwrap().ip.x(), 3);
    assert!(list.remove(3).is_none());
    assert_eq!(list.num(), 3);
}

#[test]
fn a_thread_in_the_list_can_be_changed() {
    let mut list = ThreadList::new();
    list.test_add(thread_at(0));
    list.test_add(thread_at(1));
    list.get_mut(1).unwrap().stack_stack.push(9);
    list.get_mut(1).unwrap().string_mode = true;
    assert!(!list.get(0).unwrap().string_mode);
    assert!(list.get(1).unwrap().string_mode);
    assert_eq!(list.get_mut(1).unwrap().stack_stack.pop(), 9);
    assert_eq!(list.get_mut(0).unwrap().stack_stack.pop(), 0);
}
