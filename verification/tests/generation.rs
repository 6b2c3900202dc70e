use darkmatter::batch::task_ids;
use darkmatter::batch::Batch;
use darkmatter::batch::BatchTracker;
use darkmatter::content::check_all_alphanumeric;
use darkmatter::content::random_block;
use darkmatter::filler::final_fill_size;
use darkmatter::filler::next_block_len;
use darkmatter::filler::BLOCK_LEN;
use darkmatter::filler::FILL_TARGET;
use darkmatter::names::decimal_string;
use darkmatter::names::file_name;

#[test]
fn task_count_is_one_less_than_batch_size() {
    assert_eq!(task_ids(128).len(), 127);
    assert_eq!(task_ids(2).len(), 1);
    let ids = task_ids(5);
    assert_eq!(ids, vec![1, 2, 3, 4]);
}

#[test]
fn one_file_plans_no_tasks() {
    assert!(task_ids(1).is_empty());
}

#[test]
fn zero_files_does_not_underflow() {
    assert!(task_ids(0).is_empty());
}

#[test]
fn three_files_make_two_outputs() {
    let ids = task_ids(3);
    assert_eq!(ids, vec![1, 2]);
    let names: Vec<String> = ids
        .iter()
        .map(|&i| String::from_utf8(file_name(i)).unwrap())
        .collect();
    assert_eq!(names, vec!["1.txt".to_string(), "2.txt".to_string()]);
    let target: u64 = 1000;
    for _ in &ids {
        let size = final_fill_size(0, target, BLOCK_LEN as u64);
        assert!(size >= target);
    }
}

#[test]
fn fill_stops_at_or_above_target() {
    assert_eq!(final_fill_size(0, 500, 100), 500);
    assert_eq!(final_fill_size(0, 501, 100), 600);
    assert_eq!(final_fill_size(250, 500, 100), 550);
    assert_eq!(final_fill_size(700, 500, 100), 700);
    assert_eq!(final_fill_size(0, 0, 100), 0);
}

#[test]
fn fill_size_is_reproducible() {
    let a = final_fill_size(0, 123456, 1000);
    let b = final_fill_size(0, 123456, 1000);
    assert_eq!(a, b);
    assert!(a >= 123456 && a < 123456 + 1000);
}

#[test]
fn next_block_len_stops_at_target() {
    assert_eq!(next_block_len(0, FILL_TARGET), Some(BLOCK_LEN));
    assert_eq!(next_block_len(FILL_TARGET - 1, FILL_TARGET), Some(BLOCK_LEN));
    assert_eq!(next_block_len(FILL_TARGET, FILL_TARGET), None);
    assert_eq!(next_block_len(FILL_TARGET + 5, FILL_TARGET), None);
}

#[test]
fn blocks_are_alphanumeric() {
    let block = random_block(4096);
    assert_eq!(block.len(), 4096);
    assert!(check_all_alphanumeric(&block));
    for &b in &block {
        assert!(b.is_ascii_alphanumeric());
    }
    let empty = random_block(0);
    assert_eq!(empty.len(), 0);
}

#[test]
fn checker_rejects_other_bytes() {
    assert!(check_all_alphanumeric(&vec![b'a', b'Z', b'0']));
    assert!(!check_all_alphanumeric(&vec![b'a', b' ', b'0']));
    assert!(!check_all_alphanumeric(&vec![0u8]));
    assert!(!check_all_alphanumeric(&vec![b'1', b'.', b't']));
    assert!(check_all_alphanumeric(&Vec::new()));
}

#[test]
fn two_blocks_differ_in_content() {
    let a = random_block(256);
    let b = random_block(256);
    assert_eq!(a.len(), b.len());
    assert_ne!(a, b);
}

#[test]
fn decimal_rendering() {
    assert_eq!(decimal_string(0), vec![48]);
    assert_eq!(String::from_utf8(decimal_string(7)).unwrap(), "7");
    assert_eq!(String::from_utf8(decimal_string(42)).unwrap(), "42");
    assert_eq!(String::from_utf8(decimal_string(100)).unwrap(), "100");
    assert_eq!(String::from_utf8(decimal_string(65535)).unwrap(), "65535");
}

#[test]
fn file_names_follow_the_id() {
    assert_eq!(String::from_utf8(file_name(0)).unwrap(), "0.txt");
    assert_eq!(String::from_utf8(file_name(1)).unwrap(), "1.txt");
    assert_eq!(String::from_utf8(file_name(10)).unwrap(), "10.txt");
    assert_eq!(String::from_utf8(file_name(65535)).unwrap(), "65535.txt");
}

#[test]
fn file_names_do_not_collide() {
    let ids = task_ids(200);
    let mut names: Vec<Vec<u8>> = ids.iter().map(|&i| file_name(i)).collect();
    names.sort();
    names.dedup();
    assert_eq!(names.len(), ids.len());
}

#[test]
fn tracker_join_barrier() {
    let ids = task_ids(5);
    let mut t = BatchTracker::new();
    for _ in &ids {
        assert!(t.spawned < u64::MAX);
        t.record_spawn();
    }
    assert_eq!(t.spawned, 4);
    assert!(!t.is_complete());
    t.record_terminal(true);
    t.record_terminal(true);
    t.record_terminal(true);
    assert!(!t.is_complete());
    t.record_terminal(true);
    assert!(t.is_complete());
}

#[test]
fn failures_do_not_block_completion() {
    let mut t = BatchTracker::new();
    t.record_spawn();
    t.record_spawn();
    t.record_spawn();
    t.record_terminal(false);
    t.record_terminal(true);
    assert!(!t.is_complete());
    t.record_terminal(true);
    assert!(t.is_complete());
    assert_eq!(t.failed, 1);
    assert_eq!(t.succeeded, 2);
}

#[test]
fn batch_records_configuration() {
    let b = Batch::new(3, 8, 32, String::from("/opt/darkmatter"));
    assert_eq!(b.num_files, 3);
    assert_eq!(b.min_size, 8);
    assert_eq!(b.max_size, 32);
    assert_eq!(b.directory, "/opt/darkmatter");
    assert_eq!(b.task_ids(), vec![1, 2]);
}

#[test]
fn fill_constants() {
    assert_eq!(FILL_TARGET, 500_000_000);
    assert_eq!(BLOCK_LEN, 1_000_000);
}
