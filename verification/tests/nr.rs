use drop_tracer::DropTracer;
use easy_node::{Node, Nr, Nw};
use std::cmp::Ordering;
use std::collections::hash_map::DefaultHasher;
use std::collections::HashSet;
use std::hash::{Hash, Hasher};
use std::rc::Rc;

#[derive(Debug)]
pub struct Cyclic<T> {
    val: T,
    me: Nw<Self>,
}

impl<T> Cyclic<T> {
    pub fn new(val: T, nw: &Nw<Self>) -> Self {
        Self {
            val,
            me: nw.clone(),
        }
    }

    pub fn val(&self) -> &T {
        &self.val
    }

    pub fn me(&self) -> &Nw<Self> {
        &self.me
    }
}

#[derive(Debug)]
pub struct Looped<T> {
    value: T,
    me: Nw<Self>,
}

#[derive(Debug)]
pub struct Child<T> {
    _value: T,
    parent: Nw<Parent<T>>,
}

impl<T> Child<T> {
    pub fn new(value: T, parent: Nw<Parent<T>>) -> Self {
        Self {
            _value: value,
            parent,
        }
    }

    pub fn parent(&self) -> &Nw<Parent<T>> {
        &self.parent
    }
}

#[derive(Debug)]
pub struct Parent<T> {
    _value: T,
    child: Nr<Child<T>>,
}

impl<T> Parent<T> {
    pub fn new(value: T, child: Nr<Child<T>>) -> Self {
        Self {
            _value: value,
            child,
        }
    }

    pub fn child(&self) -> &Nr<Child<T>> {
        &self.child
    }
}

fn hash_of<T: Hash>(value: &T) -> u64 {
    let mut hasher = DefaultHasher::new();
    value.hash(&mut hasher);
    hasher.finish()
}

#[test]
fn nr_new() {
    let result = Nr::new(42);

    assert_eq!(*result, 42);
    assert_eq!(Nr::strong_count(&result), 1);
    assert_eq!(Nr::weak_count(&result), 0);

    DropTracer::test_drop(|tracer| {
        let result = Nr::new((42, tracer.new_item()));

        assert_eq!(result.0, 42);
        assert_eq!(Nr::strong_count(&result), 1);
        assert_eq!(Nr::weak_count(&result), 0);
    });
}

fn nr_new_cyclic_with_inline_type() {
    DropTracer::test_drop(|tracer| {
        let result = Nr::new_cyclic(|w| {
            let value = (42, tracer.new_item());
            let me = w.clone();
            Looped { value, me }
        });

        assert_eq!(result.value.0, 42);
        assert_eq!(&result.me, &Nr::downgrade(&result));
        assert_eq!(Nr::strong_count(&result), 1);
        assert_eq!(Nr::weak_count(&result), 1);
        assert_eq!(Nw::strong_count(&result.me), 1);
        assert_eq!(Nw::weak_count(&result.me), 1);
    });
}

fn nr_new_cyclic_with_self_cycle() {
    DropTracer::test_drop(|tracer| {
        let result = Nr::new_cyclic(|w| {
            let value = (42, tracer.new_item());
            Cyclic::new(value, w)
        });

        assert_eq!(result.val().0, 42);
        assert_eq!(result.me(), &Nr::downgrade(&result));
        assert_eq!(Nr::strong_count(&result), 1);
        assert_eq!(Nr::weak_count(&result), 1);
        assert_eq!(Nw::strong_count(result.me()), 1);
        assert_eq!(Nw::weak_count(result.me()), 1);
    });
}

fn nr_new_cyclic_with_parent_and_child_cycle() {
    DropTracer::test_drop(|tracer| {
        let result = Nr::new_cyclic(|w| {
            let c_value = tracer.new_item();
            let p_value = tracer.new_item();
            let child = Nr::new(Child::new(c_value, w.clone()));
            let parent = Parent::new(p_value, child);
            parent
        });

        assert_eq!(Nr::strong_count(&result), 1);
        assert_eq!(Nr::weak_count(&result), 1);
        assert_eq!(Nr::strong_count(result.child()), 1);
        assert_eq!(Nr::weak_count(result.child()), 0);
        assert_eq!(Nw::strong_count(result.child().parent()), 1);
        assert_eq!(Nw::weak_count(result.child().parent()), 1);
        assert_eq!(*result.child().parent(), Nr::downgrade(&result));
    });
}

#[test]
fn nr_new_cyclic() {
    nr_new_cyclic_with_inline_type();
    nr_new_cyclic_with_self_cycle();
    nr_new_cyclic_with_parent_and_child_cycle();
}

#[test]
fn nr_from_base() {
    let rc = Rc::new(Node::new(42));

    let result = Nr::from_base(rc.clone());

    assert_eq!(result, Nr::from_base(rc.clone()));
}

#[test]
fn nr_base() {
    let rc = Rc::new(Node::new(42));
    let target = Nr::from_base(rc.clone());

    let result = Nr::base(&target);

    assert!(Rc::ptr_eq(result, &rc));
}

fn nr_downgrade_with_plain_value() {
    let target = Nr::new(42);

    let result = Nr::downgrade(&target);

    assert_eq!(Nr::strong_count(&target), 1);
    assert_eq!(Nw::strong_count(&result), 1);
    assert_eq!(Nr::weak_count(&target), 1);
    assert_eq!(Nw::weak_count(&result), 1);
}

fn nr_downgrade_with_normal() {
    DropTracer::test_drop(|tracer| {
        let target = Nr::new(tracer.new_item());

        let result = Nr::downgrade(&target);

        assert_eq!(Nr::strong_count(&target), 1);
        assert_eq!(Nw::strong_count(&result), 1);
        assert_eq!(Nr::weak_count(&target), 1);
        assert_eq!(Nw::weak_count(&result), 1);
    });
}

fn nr_downgrade_with_double() {
    DropTracer::test_drop(|tracer| {
        let target = Nr::new(tracer.new_item());

        let result1 = Nr::downgrade(&target);
        let result2 = Nr::downgrade(&target);

        assert_eq!(Nr::strong_count(&target), 1);
        assert_eq!(Nw::strong_count(&result1), 1);
        assert_eq!(Nw::strong_count(&result2), 1);
        assert_eq!(Nr::weak_count(&target), 2);
        assert_eq!(Nw::weak_count(&result1), 2);
        assert_eq!(Nw::weak_count(&result2), 2);
    });
}

fn nr_downgrade_with_self_cycle() {
    DropTracer::test_drop(|tracer| {
        let target = Nr::new_cyclic(|w| {
            let value = tracer.new_item();
            Cyclic::new(value, w)
        });

        let result = Nr::downgrade(&target);

        assert_eq!(Nr::strong_count(&target), 1);
        assert_eq!(Nw::strong_count(&result), 1);
        assert_eq!(Nr::weak_count(&target), 2);
        assert_eq!(Nw::weak_count(&result), 2);
    });
}

fn nr_downgrade_with_parent_and_child_cycle() {
    DropTracer::test_drop(|tracer| {
        let target = Nr::new_cyclic(|w| {
            let c_value = tracer.new_item();
            let p_value = tracer.new_item();
            let child = Nr::new(Child::new(c_value, w.clone()));
            let parent = Parent::new(p_value, child);
            parent
        });

        let result = Nr::downgrade(&target);

        assert_eq!(Nr::strong_count(&target), 1);
        assert_eq!(Nw::strong_count(&result), 1);
        assert_eq!(Nr::weak_count(&target), 2);
        assert_eq!(Nw::weak_count(&result), 2);
    });
}

#[test]
fn nr_downgrade() {
    nr_downgrade_with_plain_value();
    nr_downgrade_with_normal();
    nr_downgrade_with_double();
    nr_downgrade_with_self_cycle();
    nr_downgrade_with_parent_and_child_cycle();
}

#[test]
fn nr_clone() {
    let target = Nr::new(42);

    let result = Nr::clone(&target);

    assert_eq!(Nr::strong_count(&target), 2);
    assert_eq!(Nr::strong_count(&result), 2);
    assert_eq!(Nr::weak_count(&target), 0);
    assert_eq!(Nr::weak_count(&result), 0);
    assert_eq!(&result, &target);
    assert_eq!(*result, *target);
}

#[test]
fn nr_default() {
    let result = <Nr<i32> as Default>::default();
    assert_eq!(*result, i32::default());
}

#[test]
fn nr_fmt() {
    let target = Nr::new("test");
    let result = format!("{target}");
    assert_eq!(&result, "test")
}

fn nr_hash_with_same() {
    let target1 = Nr::new(());
    let target2 = Nr::clone(&target1);
    let mut hasher1 = DefaultHasher::new();
    let mut hasher2 = DefaultHasher::new();

    target1.hash(&mut hasher1);
    target2.hash(&mut hasher2);

    assert_eq!(hasher1.finish(), hasher2.finish());
}

fn nr_hash_with_diff() {
    let target1 = Nr::new(());
    let target2 = Nr::new(());
    let mut hasher1 = DefaultHasher::new();
    let mut hasher2 = DefaultHasher::new();

    target1.hash(&mut hasher1);
    target2.hash(&mut hasher2);

    assert_ne!(hasher1.finish(), hasher2.finish());
}

#[test]
fn nr_hash() {
    nr_hash_with_same();
    nr_hash_with_diff();
}

fn nr_cmp_with_same() {
    let target1 = Nr::new(());
    let target2 = Nr::clone(&target1);

    let result = target1.cmp(&target2);

    assert_eq!(result, Ordering::Equal);
}

fn nr_cmp_with_diff() {
    let target1 = Nr::new(());
    let target2 = Nr::new(());

    let result1 = target1.cmp(&target2);
    let result2 = target2.cmp(&target1);
    let results = [result1, result2];

    let expecteds = [Ordering::Less, Ordering::Greater];
    assert_eq!(HashSet::from(results), HashSet::from(expecteds));
}

#[test]
fn nr_cmp() {
    nr_cmp_with_same();
    nr_cmp_with_diff();
}

fn nr_eq_with_same() {
    let target1 = Nr::new(());
    let target2 = Nr::clone(&target1);

    let result = target1.eq(&target2);

    assert!(result);
}

fn nr_eq_with_diff() {
    let target1 = Nr::new(());
    let target2 = Nr::new(());

    let result = target1.eq(&target2);

    assert!(!result);
}

#[test]
fn nr_eq() {
    nr_eq_with_same();
    nr_eq_with_diff();
}

fn nr_partial_cmp_with_same() {
    let target1 = Nr::new(());
    let target2 = Nr::clone(&target1);

    let result = target1.partial_cmp(&target2);

    assert_eq!(result, Some(Ordering::Equal));
}

fn nr_partial_cmp_with_diff() {
    let target1 = Nr::new(());
    let target2 = Nr::new(());

    let result1 = target1.partial_cmp(&target2);
    let result2 = target2.partial_cmp(&target1);
    let results = [result1, result2];

    let expecteds = [Some(Ordering::Less), Some(Ordering::Greater)];
    assert_eq!(HashSet::from(results), HashSet::from(expecteds));
}

#[test]
fn nr_partial_cmp() {
    nr_partial_cmp_with_same();
    nr_partial_cmp_with_diff();
}

#[test]
fn nr_as_ptr_is_the_identity() {
    let first = Nr::new(7);
    let second = Nr::new(7);
    let copy = Nr::clone(&first);
    let weak = Nr::downgrade(&first);

    assert_eq!(Nr::as_ptr(&first), Nr::as_ptr(&copy));
    assert_ne!(Nr::as_ptr(&first), Nr::as_ptr(&second));
    assert_eq!(Nr::as_ptr(&first), weak.as_ptr());
    assert_eq!(first.cmp(&second), Nr::as_ptr(&first).cmp(&Nr::as_ptr(&second)));
    assert_eq!(hash_of(&first), hash_of(&Nr::as_ptr(&first)));
}

#[test]
fn nr_equal_values_are_not_equal_handles() {
    let first = Nr::new(String::from("same"));
    let second = Nr::new(String::from("same"));

    assert_eq!(*first, *second);
    assert_ne!(first, second);
    assert_ne!(first.cmp(&second), Ordering::Equal);
    assert_ne!(hash_of(&first), hash_of(&second));
    assert_eq!(first, Nr::clone(&first));
}

#[test]
fn nr_downgrade_then_upgrade_gives_the_same_handle() {
    let target = Nr::new(5);
    let weak = Nr::downgrade(&target);

    let back = weak.upgrade().unwrap();

    assert_eq!(back, target);
    assert_eq!(back.cmp(&target), Ordering::Equal);
    assert_eq!(*back, 5);
    assert_eq!(Nr::strong_count(&target), 2);
    assert_eq!(Nr::weak_count(&target), 1);

    drop(back);
    drop(target);

    assert!(weak.upgrade().is_none());
    assert!(Nw::clone(&weak).upgrade().is_none());
    assert_eq!(weak.strong_count(), 0);
}

#[test]
fn nr_factory_sees_no_value_yet() {
    let result = Nr::new_cyclic(|w: &Nw<Cyclic<bool>>| {
        let early = w.upgrade().is_some();
        assert_eq!(w.strong_count(), 0);
        Cyclic::new(early, w)
    });

    assert!(!*result.val());
    assert_eq!(result.me().upgrade(), Some(Nr::clone(&result)));
    assert_eq!(result.me().as_ptr(), Nr::as_ptr(&result));
}

#[test]
fn nr_last_weak_drop_leaves_strong_handles() {
    DropTracer::test_drop(|tracer| {
        let first = Nr::new(tracer.new_item());
        let second = Nr::clone(&first);
        let weak = Nr::downgrade(&first);
        assert_eq!(Nr::strong_count(&first), 2);
        assert_eq!(Nr::weak_count(&first), 1);

        drop(weak);

        assert_eq!(Nr::strong_count(&first), 2);
        assert_eq!(Nr::strong_count(&second), 2);
        assert_eq!(Nr::weak_count(&first), 0);
        assert!(!Nr::base(&first).has_self_ref());
        assert_eq!(tracer.count(), 1);

        let again = Nr::downgrade(&second);
        assert_eq!(again.upgrade(), Some(Nr::clone(&first)));
    });
}

#[test]
fn nr_last_strong_drop_releases_the_value() {
    DropTracer::test_drop(|tracer| {
        let first = Nr::new(tracer.new_item());
        let second = Nr::clone(&first);
        let weak1 = Nr::downgrade(&first);
        let weak2 = Nw::clone(&weak1);

        drop(first);
        assert_eq!(tracer.count(), 1);
        assert_eq!(Nr::strong_count(&second), 1);
        assert_eq!(weak1.strong_count(), 1);

        drop(second);
        assert_eq!(tracer.count(), 0);
        assert_eq!(weak1.upgrade(), None);
        assert_eq!(weak2.upgrade(), None);
        assert_eq!(weak1.strong_count(), 0);
        assert_eq!(weak2.weak_count(), 0);
        assert_eq!(weak1, weak2);
    });
}

#[test]
fn nr_parent_and_child_end_to_end() {
    DropTracer::test_drop(|tracer| {
        let parent = Nr::new_cyclic(|w| {
            let child = Nr::new(Child::new(tracer.new_item(), w.clone()));
            Parent::new(tracer.new_item(), child)
        });
        let child_view = Nr::downgrade(parent.child());

        assert_eq!(Nr::strong_count(&parent), 1);
        assert_eq!(parent.child().parent().upgrade(), Some(Nr::clone(&parent)));
        assert_eq!(Nr::strong_count(&parent), 1);
        assert_eq!(child_view.strong_count(), 1);
        assert_eq!(tracer.count(), 2);

        drop(parent);

        assert_eq!(tracer.count(), 0);
        assert_eq!(child_view.upgrade(), None);
        assert_eq!(child_view.strong_count(), 0);
    });
}

#[test]
fn node_keeps_and_releases_its_self_reference() {
    let target = Nr::new(1);
    let node = Nr::base(&target);
    assert_eq!(*node.value(), 1);
    assert!(!node.has_self_ref());

    node.set_self_ref(Nr::clone(&target));
    assert!(node.has_self_ref());
    assert_eq!(Rc::strong_count(node), 2);
    assert_eq!(Nr::strong_count(&target), 1);

    node.drop_self_ref();
    assert!(!node.has_self_ref());
    assert_eq!(Rc::strong_count(node), 1);
    assert_eq!(Nr::strong_count(&target), 1);

    node.drop_self_ref();
    assert!(!node.has_self_ref());
    assert_eq!(*Node::<i32>::default().value(), 0);
}

#[test]
fn nr_self_reference_is_installed_once_and_never_counted() {
    let target = Nr::new(1);
    assert!(!Nr::base(&target).has_self_ref());

    let weak1 = Nr::downgrade(&target);
    assert!(Nr::base(&target).has_self_ref());
    assert_eq!(Rc::strong_count(Nr::base(&target)), 2);
    assert_eq!(Nr::strong_count(&target), 1);

    let weak2 = Nr::downgrade(&target);
    assert_eq!(Rc::strong_count(Nr::base(&target)), 2);
    assert_eq!(Nr::strong_count(&target), 1);
    assert_eq!(Nr::weak_count(&target), 2);

    drop(weak1);
    assert!(Nr::base(&target).has_self_ref());
    drop(weak2);
    assert!(!Nr::base(&target).has_self_ref());
    assert_eq!(Rc::strong_count(Nr::base(&target)), 1);
}

#[test]
fn nr_debug_text_ends_with_a_self_reference_installed() {
    let target = Nr::new(7);
    let weak = Nr::downgrade(&target);
    assert!(Nr::base(&target).has_self_ref());

    let text = format!("{:?} {:?}", target, weak);

    assert!(text.contains("value: 7"));
    assert!(text.contains("SelfSlot"));
}

#[test]
fn nr_references_outside_a_handle_count_as_owners() {
    DropTracer::test_drop(|tracer| {
        let rc = Rc::new(Node::new(tracer.new_item()));
        let first = Nr::from_base(rc.clone());
        let second = Nr::from_base(rc.clone());
        assert_eq!(first, second);
        assert_eq!(Nr::strong_count(&first), 3);

        let weak = Nr::downgrade(&first);
        assert_eq!(Nr::strong_count(&first), 3);
        assert_eq!(Rc::strong_count(&rc), 4);

        drop(first);
        drop(second);
        assert_eq!(weak.strong_count(), 1);
        assert_eq!(weak.upgrade().map(|nr| Nr::strong_count(&nr)), Some(2));

        drop(rc);
        drop(weak);
    });
}

#[test]
fn nr_long_chain_is_released_from_the_head() {
    DropTracer::test_drop(|tracer| {
        let mut head = Nr::new_cyclic(|w| Parent::new(
            tracer.new_item(),
            Nr::new(Child::new(tracer.new_item(), w.clone())),
        ));
        let mut views = Vec::new();
        let mut child_views = Vec::new();
        for _ in 0..50 {
            views.push(Nr::downgrade(&head));
            child_views.push(Nr::downgrade(head.child()));
            head = Nr::new_cyclic(|w| Parent::new(
                tracer.new_item(),
                Nr::new(Child::new(tracer.new_item(), w.clone())),
            ));
        }
        assert_eq!(tracer.count(), 2);
        assert!(views.iter().all(|view| view.upgrade().is_none()));
        assert!(child_views.iter().all(|view| view.upgrade().is_none()));
        assert_eq!(Nr::strong_count(&head), 1);
        assert_eq!(Nr::weak_count(&head), 1);
    });
}
