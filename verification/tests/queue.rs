use copperlist::manager::CuListsManager;
use copperlist::payload::{CuListZeroedInit, ErasedCuStampedData, ErasedCuStampedDataSet};

#[derive(Debug, PartialEq, Clone, Copy, Default)]
struct CuStampedDataSet(i32);

impl ErasedCuStampedDataSet for CuStampedDataSet {
    fn cumsgs(&self) -> Vec<&dyn ErasedCuStampedData> {
        Vec::new()
    }
    fn cumsgs_mut(&mut self) -> Vec<&mut dyn ErasedCuStampedData> {
        Vec::new()
    }
}

impl CuListZeroedInit for CuStampedDataSet {
    fn zeroed() -> Self {
        CuStampedDataSet(0)
    }
    fn init_zeroed(&mut self) {}
}

#[test]
fn empty_queue() {
    let q = CuListsManager::<CuStampedDataSet, 5>::new();

    assert!(q.is_empty());
    assert!(q.iter().next().is_none());
}

#[test]
fn partially_full_queue() {
    let mut q = CuListsManager::<CuStampedDataSet, 5>::new();
    q.create().unwrap().msgs.0 = 1;
    q.create().unwrap().msgs.0 = 2;
    q.create().unwrap().msgs.0 = 3;

    assert!(!q.is_empty());
    assert_eq!(q.len(), 3);

    let res: Vec<i32> = q.iter().map(|x| x.msgs.0).collect();
    assert_eq!(res, [3, 2, 1]);
}

#[test]
fn full_queue() {
    let mut q = CuListsManager::<CuStampedDataSet, 5>::new();
    q.create().unwrap().msgs.0 = 1;
    q.create().unwrap().msgs.0 = 2;
    q.create().unwrap().msgs.0 = 3;
    q.create().unwrap().msgs.0 = 4;
    q.create().unwrap().msgs.0 = 5;
    assert_eq!(q.len(), 5);

    let res: Vec<_> = q.iter().map(|x| x.msgs.0).collect();
    assert_eq!(res, [5, 4, 3, 2, 1]);
}

#[test]
fn over_full_queue() {
    let mut q = CuListsManager::<CuStampedDataSet, 5>::new();
    q.create().unwrap().msgs.0 = 1;
    q.create().unwrap().msgs.0 = 2;
    q.create().unwrap().msgs.0 = 3;
    q.create().unwrap().msgs.0 = 4;
    q.create().unwrap().msgs.0 = 5;
    assert!(q.create().is_none());
    assert_eq!(q.len(), 5);

    let res: Vec<_> = q.iter().map(|x| x.msgs.0).collect();
    assert_eq!(res, [5, 4, 3, 2, 1]);
}

#[test]
fn clear() {
    let mut q = CuListsManager::<CuStampedDataSet, 5>::new();
    q.create().unwrap().msgs.0 = 1;
    q.create().unwrap().msgs.0 = 2;
    q.create().unwrap().msgs.0 = 3;
    q.create().unwrap().msgs.0 = 4;
    q.create().unwrap().msgs.0 = 5;
    assert!(q.create().is_none());
    assert_eq!(q.len(), 5);

    q.clear();

    assert_eq!(q.len(), 0);
    assert!(q.iter().next().is_none());

    q.create().unwrap().msgs.0 = 1;
    q.create().unwrap().msgs.0 = 2;
    q.create().unwrap().msgs.0 = 3;

    assert_eq!(q.len(), 3);

    let res: Vec<_> = q.iter().map(|x| x.msgs.0).collect();
    assert_eq!(res, [3, 2, 1]);
}

#[test]
fn mutable_iterator() {
    let mut q = CuListsManager::<CuStampedDataSet, 5>::new();
    q.create().unwrap().msgs.0 = 1;
    q.create().unwrap().msgs.0 = 2;
    q.create().unwrap().msgs.0 = 3;
    q.create().unwrap().msgs.0 = 4;
    q.create().unwrap().msgs.0 = 5;

    for x in q.iter_mut() {
        x.msgs.0 *= 2;
    }

    let res: Vec<_> = q.iter().map(|x| x.msgs.0).collect();
    assert_eq!(res, [10, 8, 6, 4, 2]);
}

#[test]
fn test_drop_last() {
    let mut q = CuListsManager::<CuStampedDataSet, 5>::new();
    q.create().unwrap().msgs.0 = 1;
    q.create().unwrap().msgs.0 = 2;
    q.create().unwrap().msgs.0 = 3;
    q.create().unwrap().msgs.0 = 4;
    q.create().unwrap().msgs.0 = 5;
    assert_eq!(q.len(), 5);

    q.drop_last();
    assert_eq!(q.len(), 4);

    let res: Vec<_> = q.iter().map(|x| x.msgs.0).collect();
    assert_eq!(res, [4, 3, 2, 1]);
}

#[test]
fn test_pop() {
    let mut q = CuListsManager::<CuStampedDataSet, 5>::new();
    q.create().unwrap().msgs.0 = 1;
    q.create().unwrap().msgs.0 = 2;
    q.create().unwrap().msgs.0 = 3;
    q.create().unwrap().msgs.0 = 4;
    q.create().unwrap().msgs.0 = 5;
    assert_eq!(q.len(), 5);

    let last = q.pop().unwrap();
    assert_eq!(last.msgs.0, 5);
    assert_eq!(q.len(), 4);

    let res: Vec<_> = q.iter().map(|x| x.msgs.0).collect();
    assert_eq!(res, [4, 3, 2, 1]);
}

#[test]
fn test_peek() {
    let mut q = CuListsManager::<CuStampedDataSet, 5>::new();
    q.create().unwrap().msgs.0 = 1;
    q.create().unwrap().msgs.0 = 2;
    q.create().unwrap().msgs.0 = 3;
    q.create().unwrap().msgs.0 = 4;
    q.create().unwrap().msgs.0 = 5;
    assert_eq!(q.len(), 5);

    let last = q.peek().unwrap();
    assert_eq!(last.msgs.0, 5);
    assert_eq!(q.len(), 5);

    let res: Vec<_> = q.iter().map(|x| x.msgs.0).collect();
    assert_eq!(res, [5, 4, 3, 2, 1]);
}

#[derive(Debug, PartialEq, Clone, Copy)]
struct TestStruct {
    content: [u8; 10_000_000],
}

impl Default for TestStruct {
    fn default() -> Self {
        TestStruct {
            content: [0; 10_000_000],
        }
    }
}

impl ErasedCuStampedDataSet for TestStruct {
    fn cumsgs(&self) -> Vec<&dyn ErasedCuStampedData> {
        Vec::new()
    }
    fn cumsgs_mut(&mut self) -> Vec<&mut dyn ErasedCuStampedData> {
        Vec::new()
    }
}

impl CuListZeroedInit for TestStruct {
    fn zeroed() -> Self {
        TestStruct {
            content: [0; 10_000_000],
        }
    }
    fn init_zeroed(&mut self) {}
}

#[test]
fn be_sure_we_wont_stackoverflow_at_init() {
    let _ = CuListsManager::<TestStruct, 3>::new();
}

#[test]
fn large_payloads_hold_their_bytes() {
    let mut q = CuListsManager::<TestStruct, 3>::new();
    q.create().unwrap().msgs.content[9_999_999] = 7;
    q.create().unwrap().msgs.content[0] = 8;
    let content: Vec<(u8, u8)> = q
        .iter()
        .map(|x| (x.msgs.content[0], x.msgs.content[9_999_999]))
        .collect();
    assert_eq!(content, [(8, 0), (0, 7)]);
}
