use std::rc::Rc;
use std::sync::atomic::AtomicIsize;
use std::sync::atomic::Ordering;

use glctx::MatrixStack;

/// Test the push and pop functionality of our [`MatrixStack`] type.
#[test]
fn push_pop() {
    let top = Rc::new(AtomicIsize::new(0));
    let clone = Rc::clone(&top);
    let load = move |x: &isize| {
        clone.store(*x, Ordering::Relaxed);
    };

    let mut stack = MatrixStack::<isize, 16, _>::new(load);
    let () = stack.push(|x| {
        assert_eq!(*x, 0);
        *x = 1;
    });
    assert_eq!(top.load(Ordering::Relaxed), 1);

    let () = stack.push(|x| {
        assert_eq!(*x, 1);
        *x = 2;
    });
    assert_eq!(top.load(Ordering::Relaxed), 2);

    let () = stack.pop();
    assert_eq!(top.load(Ordering::Relaxed), 1);
    let () = stack.pop();
    assert_eq!(top.load(Ordering::Relaxed), 0);
}

/// The loading function sees the initial matrix at creation, and then
/// exactly the new top after every push and pop.
#[test]
fn loader_observes_every_new_top() {
    let seen = Rc::new(std::cell::RefCell::new(Vec::new()));
    let sink = Rc::clone(&seen);
    let load = move |x: &i64| sink.borrow_mut().push(*x);

    let mut stack = MatrixStack::<i64, 8, _>::new(load);
    for value in [10, 20, 30] {
        let () = stack.push(|x| *x = value);
        assert_eq!(*stack.top(), value);
    }
    for _ in 0..3 {
        let () = stack.pop();
    }
    assert_eq!(*stack.top(), 0);
    assert_eq!(*seen.borrow(), vec![0, 10, 20, 30, 20, 10, 0]);
}

/// On a full stack a push calls neither the function that changes the
/// matrix nor the loading function; on a stack with only its bottom
/// matrix a pop does not call the loading function.
#[test]
fn refused_push_and_pop_call_nothing() {
    let seen = Rc::new(std::cell::RefCell::new(Vec::new()));
    let sink = Rc::clone(&seen);
    let load = move |x: &i64| sink.borrow_mut().push(*x);
    let changed = std::cell::Cell::new(0);

    let mut stack = MatrixStack::<i64, 2, _>::new(load);
    assert!(!stack.try_pop());
    assert_eq!(*seen.borrow(), vec![0]);

    let change = |x: &mut i64| {
        changed.set(changed.get() + 1);
        *x = 5;
    };
    assert!(stack.try_push(change).is_none());
    assert_eq!(changed.get(), 1);
    assert_eq!(*seen.borrow(), vec![0, 5]);

    let refused = stack.try_push(change);
    assert!(refused.is_some());
    assert_eq!(changed.get(), 1);
    assert_eq!(*seen.borrow(), vec![0, 5]);
    assert_eq!(*stack.top(), 5);
    assert_eq!(stack.depth(), 2);

    assert!(stack.try_pop());
    assert!(!stack.try_pop());
    assert_eq!(*seen.borrow(), vec![0, 5, 0]);
    assert_eq!(*stack.top(), 0);
}
