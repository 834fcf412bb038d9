use pooler::{LinearData, Stack};

#[test]
fn test_new_stack_is_empty() {
    let stack: Stack<i32> = Stack::new();
    assert!(stack.is_empty());
}

#[test]
fn stack_test_push_and_pop() {
    let mut stack = Stack::new();

    stack.push(1);
    stack.push(2);
    stack.push(3);

    assert_eq!(stack.pop(), Some(3));
    assert_eq!(stack.pop(), Some(2));
    assert_eq!(stack.pop(), Some(1));
    assert_eq!(stack.pop(), None);
}

#[test]
fn stack_test_peek() {
    let mut stack = Stack::new();

    assert_eq!(stack.peek(), None);

    stack.push(1);
    assert_eq!(stack.peek(), Some(&1));

    assert_eq!(stack.peek(), Some(&1));
    assert_eq!(stack.pop(), Some(1));
    assert_eq!(stack.peek(), None);
}

#[test]
fn stack_test_iterator() {
    let mut stack = Stack::new();
    stack.push(1);
    stack.push(2);
    stack.push(3);

    let mut items: Vec<i32> = stack.into_vec();
    items.reverse();
    assert_eq!(items, vec![1, 2, 3]);
}

#[test]
fn test_reverse() {
    let mut stack = Stack::new();
    stack.push(1);
    stack.push(2);
    stack.push(3);

    let reversed = stack.reverse();
    let items: Vec<i32> = reversed.into_vec();
    assert_eq!(items, vec![1, 2, 3]);
}

#[test]
fn stack_test_default() {
    let stack: Stack<i32> = Stack::default();
    assert!(stack.is_empty());
}

#[test]
fn stack_reverse_of_empty_is_empty() {
    let stack: Stack<u8> = Stack::new();
    let mut reversed = stack.reverse();
    assert!(reversed.is_empty());
    assert_eq!(reversed.pop(), None);
}

#[test]
fn stack_reverse_twice_restores_order() {
    let mut stack = Stack::new();
    for i in 0..10 {
        stack.push(i);
    }
    let items = stack.reverse().reverse().into_vec();
    assert_eq!(items, vec![9, 8, 7, 6, 5, 4, 3, 2, 1, 0]);
}

#[test]
fn stack_into_vec_lists_top_first() {
    let mut stack = Stack::new();
    stack.push("a".to_string());
    stack.push("b".to_string());
    assert_eq!(stack.into_vec(), vec!["b".to_string(), "a".to_string()]);
}
