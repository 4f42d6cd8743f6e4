use matched_filter::cyclic_queue::CyclicQueue;
use matched_filter::cyclic_queue::CyclicQueueInterface;

#[test]
fn test_new() {
    let queue: CyclicQueue<String> = CyclicQueue::new(5);

    assert_eq!(queue.backing_data(), &vec!["", "", "", "", ""]);
    assert_eq!(queue.max_capacity(), 5);
    assert_eq!(queue.len(), 0);
    assert_eq!(queue.front_index(), 0);
    assert_eq!(queue.back_index(), 0);
}

#[test]
fn test_push() {
    let mut queue = CyclicQueue::new(5);

    let prev = queue.push("the");
    assert_eq!(queue.backing_data(), &vec!["the", "", "", "", ""]);
    assert_eq!(queue.max_capacity(), 5);
    assert_eq!(queue.len(), 1);
    assert_eq!(queue.front_index(), 0);
    assert_eq!(queue.back_index(), 0);
    assert_eq!(prev, None);

    let prev = queue.push("dog");
    assert_eq!(queue.backing_data(), &vec!["the", "dog", "", "", ""]);
    assert_eq!(queue.max_capacity(), 5);
    assert_eq!(queue.len(), 2);
    assert_eq!(queue.front_index(), 0);
    assert_eq!(queue.back_index(), 1);
    assert_eq!(prev, None);

    let prev = queue.push("jumps");
    assert_eq!(queue.backing_data(), &vec!["the", "dog", "jumps", "", ""]);
    assert_eq!(queue.max_capacity(), 5);
    assert_eq!(queue.len(), 3);
    assert_eq!(queue.front_index(), 0);
    assert_eq!(queue.back_index(), 2);
    assert_eq!(prev, None);

    let prev = queue.push("over");
    assert_eq!(queue.backing_data(), &vec!["the", "dog", "jumps", "over", ""]);
    assert_eq!(queue.max_capacity(), 5);
    assert_eq!(queue.len(), 4);
    assert_eq!(queue.front_index(), 0);
    assert_eq!(queue.back_index(), 3);
    assert_eq!(prev, None);

    let prev = queue.push("a");
    assert_eq!(queue.backing_data(), &vec!["the", "dog", "jumps", "over", "a"]);
    assert_eq!(queue.max_capacity(), 5);
    assert_eq!(queue.len(), 5);
    assert_eq!(queue.front_index(), 0);
    assert_eq!(queue.back_index(), 4);
    assert_eq!(prev, None);

    let prev = queue.push("white");
    assert_eq!(queue.backing_data(), &vec!["white", "dog", "jumps", "over", "a"]);
    assert_eq!(queue.max_capacity(), 5);
    assert_eq!(queue.len(), 5);
    assert_eq!(queue.front_index(), 1);
    assert_eq!(queue.back_index(), 0);
    assert_eq!(prev, Some("the"));

    let prev = queue.push("fence");
    assert_eq!(queue.backing_data(), &vec!["white", "fence", "jumps", "over", "a"]);
    assert_eq!(queue.max_capacity(), 5);
    assert_eq!(queue.len(), 5);
    assert_eq!(queue.front_index(), 2);
    assert_eq!(queue.back_index(), 1);
    assert_eq!(prev, Some("dog"));

    let prev = queue.push("this");
    assert_eq!(queue.backing_data(), &vec!["white", "fence", "this", "over", "a"]);
    assert_eq!(queue.max_capacity(), 5);
    assert_eq!(queue.len(), 5);
    assert_eq!(queue.front_index(), 3);
    assert_eq!(queue.back_index(), 2);
    assert_eq!(prev, Some("jumps"));

    let prev = queue.push("is");
    assert_eq!(queue.backing_data(), &vec!["white", "fence", "this", "is", "a"]);
    assert_eq!(queue.max_capacity(), 5);
    assert_eq!(queue.len(), 5);
    assert_eq!(queue.front_index(), 4);
    assert_eq!(queue.back_index(), 3);
    assert_eq!(prev, Some("over"));

    let prev = queue.push("some");
    assert_eq!(queue.backing_data(), &vec!["white", "fence", "this", "is", "some"]);
    assert_eq!(queue.max_capacity(), 5);
    assert_eq!(queue.len(), 5);
    assert_eq!(queue.front_index(), 0);
    assert_eq!(queue.back_index(), 4);
    assert_eq!(prev, Some("a"));

    // make sure the write cursor crosses completely so that the front
    // pointer is seen to wrap correctly
    let prev = queue.push("words");
    assert_eq!(queue.backing_data(), &vec!["words", "fence", "this", "is", "some"]);
    assert_eq!(queue.max_capacity(), 5);
    assert_eq!(queue.len(), 5);
    assert_eq!(queue.front_index(), 1);
    assert_eq!(queue.back_index(), 0);
    assert_eq!(prev, Some("white"));
}

#[test]
fn test_get_relative() {
    let mut queue = CyclicQueue::new(5);

    queue.push("the".to_string());
    assert_eq!(queue.backing_data(), &vec!["the", "", "", "", ""]);
    let val = queue.get_relative(0);
    assert_eq!(val, Some(&"the".to_string()));
    let val = queue.get_relative(1);
    assert_eq!(val, None);
    let val = queue.get_relative(2);
    assert_eq!(val, None);
    let val = queue.get_relative(3);
    assert_eq!(val, None);
    let val = queue.get_relative(4);
    assert_eq!(val, None);
    let val = queue.get_relative(5);
    assert_eq!(val, None);
    let val = queue.get_relative(6);
    assert_eq!(val, None);

    queue.push("dog".to_string());
    assert_eq!(queue.backing_data(), &vec!["the", "dog", "", "", ""]);
    let val = queue.get_relative(0);
    assert_eq!(val, Some(&"the".to_string()));
    let val = queue.get_relative(1);
    assert_eq!(val, Some(&"dog".to_string()));
    let val = queue.get_relative(2);
    assert_eq!(val, None);
    let val = queue.get_relative(3);
    assert_eq!(val, None);
    let val = queue.get_relative(4);
    assert_eq!(val, None);
    let val = queue.get_relative(5);
    assert_eq!(val, None);
    let val = queue.get_relative(6);
    assert_eq!(val, None);

    queue.push("jumps".to_string());
    assert_eq!(queue.backing_data(), &vec!["the", "dog", "jumps", "", ""]);
    let val = queue.get_relative(0);
    assert_eq!(val, Some(&"the".to_string()));
    let val = queue.get_relative(1);
    assert_eq!(val, Some(&"dog".to_string()));
    let val = queue.get_relative(2);
    assert_eq!(val, Some(&"jumps".to_string()));
    let val = queue.get_relative(3);
    assert_eq!(val, None);
    let val = queue.get_relative(4);
    assert_eq!(val, None);
    let val = queue.get_relative(5);
    assert_eq!(val, None);
    let val = queue.get_relative(6);
    assert_eq!(val, None);

    queue.push("over".to_string());
    assert_eq!(queue.backing_data(), &vec!["the", "dog", "jumps", "over", ""]);
    let val = queue.get_relative(0);
    assert_eq!(val, Some(&"the".to_string()));
    let val = queue.get_relative(1);
    assert_eq!(val, Some(&"dog".to_string()));
    let val = queue.get_relative(2);
    assert_eq!(val, Some(&"jumps".to_string()));
    let val = queue.get_relative(3);
    assert_eq!(val, Some(&"over".to_string()));
    let val = queue.get_relative(4);
    assert_eq!(val, None);
    let val = queue.get_relative(5);
    assert_eq!(val, None);
    let val = queue.get_relative(6);
    assert_eq!(val, None);

    queue.push("a".to_string());
    assert_eq!(queue.backing_data(), &vec!["the", "dog", "jumps", "over", "a"]);
    let val = queue.get_relative(0);
    assert_eq!(val, Some(&"the".to_string()));
    let val = queue.get_relative(1);
    assert_eq!(val, Some(&"dog".to_string()));
    let val = queue.get_relative(2);
    assert_eq!(val, Some(&"jumps".to_string()));
    let val = queue.get_relative(3);
    assert_eq!(val, Some(&"over".to_string()));
    let val = queue.get_relative(4);
    assert_eq!(val, Some(&"a".to_string()));
    let val = queue.get_relative(5);
    assert_eq!(val, None);
    let val = queue.get_relative(6);
    assert_eq!(val, None);

    queue.push("white".to_string());
    assert_eq!(queue.backing_data(), &vec!["white", "dog", "jumps", "over", "a"]);
    let val = queue.get_relative(0);
    assert_eq!(val, Some(&"dog".to_string()));
    let val = queue.get_relative(1);
    assert_eq!(val, Some(&"jumps".to_string()));
    let val = queue.get_relative(2);
    assert_eq!(val, Some(&"over".to_string()));
    let val = queue.get_relative(3);
    assert_eq!(val, Some(&"a".to_string()));
    let val = queue.get_relative(4);
    assert_eq!(val, Some(&"white".to_string()));
    let val = queue.get_relative(5);
    assert_eq!(val, None);
    let val = queue.get_relative(6);
    assert_eq!(val, None);

    queue.push("fence".to_string());
    assert_eq!(queue.backing_data(), &vec!["white", "fence", "jumps", "over", "a"]);
    let val = queue.get_relative(0);
    assert_eq!(val, Some(&"jumps".to_string()));
    let val = queue.get_relative(1);
    assert_eq!(val, Some(&"over".to_string()));
    let val = queue.get_relative(2);
    assert_eq!(val, Some(&"a".to_string()));
    let val = queue.get_relative(3);
    assert_eq!(val, Some(&"white".to_string()));
    let val = queue.get_relative(4);
    assert_eq!(val, Some(&"fence".to_string()));
    let val = queue.get_relative(5);
    assert_eq!(val, None);
    let val = queue.get_relative(6);
    assert_eq!(val, None);
}

// The ring-over scenario: capacity 5, seven pushes; the logical front must
// hold the last five words and the second eviction must hand back "dog".
#[test]
fn test_ring_over_scenario() {
    let mut queue: CyclicQueue<&str> = CyclicQueue::new(5);
    let words = ["the", "dog", "jumps", "over", "a", "white", "fence"];
    let mut evicted = Vec::new();
    for w in words.iter() {
        evicted.push(queue.push(*w));
    }
    let expected = ["jumps", "over", "a", "white", "fence"];
    for (i, e) in expected.iter().enumerate() {
        assert_eq!(queue.get_relative(i), Some(e));
    }
    assert_eq!(queue.get_relative(5), None);
    assert_eq!(evicted[5], Some("the"));
    assert_eq!(evicted[6], Some("dog"));
    assert_eq!(queue.get_back(), Some(&"fence"));

    // the iterator starts after the front element
    let mut it = queue.iter();
    assert_eq!(it.next(), Some(&"over"));
    assert_eq!(it.next(), Some(&"a"));
    assert_eq!(it.next(), Some(&"white"));
    assert_eq!(it.next(), Some(&"fence"));
    assert_eq!(it.next(), None);
}
