use linked_list::{LinkedList, LinkedListError};

#[test]
fn empty() {
    let list: LinkedList<i32> = LinkedList::new();
    assert_eq!(list.to_string(), "None");
}

#[test]
fn push() {
    let mut list: LinkedList<i32> = LinkedList::new();
    list.push(1);
    list.push(2);
    list.push(3);
    assert_eq!(list.to_string(), "3 -> 2 -> 1 -> None");
}

#[test]
fn pop() {
    let mut list: LinkedList<i32> = LinkedList::new();
    list.push(1);
    list.push(2);
    assert_eq!(list.pop(), Some(2));
    assert_eq!(list.to_string(), "1 -> None");
}

#[test]
fn pop_empty() {
    let mut list: LinkedList<i32> = LinkedList::new();
    assert_eq!(list.pop(), None);
}

#[test]
fn insert_at_head() {
    let mut list: LinkedList<i32> = LinkedList::new();
    list.push(1);
    list.push(2);
    list.insert(0, 3).unwrap();
    assert_eq!(list.to_string(), "3 -> 2 -> 1 -> None");
}

#[test]
fn insert_in_middle() {
    let mut list: LinkedList<i32> = LinkedList::new();
    list.push(1);
    list.push(3);
    list.insert(1, 2).unwrap();
    assert_eq!(list.to_string(), "3 -> 2 -> 1 -> None");
}

#[test]
fn insert_out_of_bounds() {
    let mut list: LinkedList<i32> = LinkedList::new();
    list.push(1);
    let result = list.insert(10, 2);
    assert_eq!(result, Err(LinkedListError::OutOfBounds));
}

#[test]
fn insert_at_tail() {
    let mut list: LinkedList<i32> = LinkedList::new();
    list.push(2);
    list.push(1);
    list.insert(2, 3).unwrap();
    assert_eq!(list.to_string(), "1 -> 2 -> 3 -> None");
}

#[test]
fn iter_empty_list() {
    let list: LinkedList<i32> = LinkedList::new();
    let mut iter = list.iter();
    assert_eq!(iter.next(), None);
}

#[test]
fn iter_single_element() {
    let mut list: LinkedList<i32> = LinkedList::new();
    list.push(1);
    let mut iter = list.iter();
    assert_eq!(iter.next(), Some(&1));
    assert_eq!(iter.next(), None);
}

#[test]
fn iter_multiple_elements() {
    let mut list: LinkedList<i32> = LinkedList::new();
    list.push(1);
    list.push(2);
    list.push(3);
    let mut iter = list.iter();
    assert_eq!(iter.next(), Some(&3));
    assert_eq!(iter.next(), Some(&2));
    assert_eq!(iter.next(), Some(&1));
    assert_eq!(iter.next(), None);
}

#[test]
fn iter_does_not_consume_list() {
    let mut list: LinkedList<i32> = LinkedList::new();
    list.push(1);
    list.push(2);
    list.push(3);
    let mut iter = list.iter();
    assert_eq!(iter.next(), Some(&3));
    assert_eq!(iter.next(), Some(&2));
    assert_eq!(list.to_string(), "3 -> 2 -> 1 -> None");
}

#[test]
fn from_vec() {
    let vec = vec![1, 2, 3, 4];
    let list: LinkedList<i32> = LinkedList::from(vec);

    assert_eq!(list.to_string(), "1 -> 2 -> 3 -> 4 -> None");
}
