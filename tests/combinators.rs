use contralog::{empty, extender, Empty, Extender, Logger};

/// A logger that refuses negative numbers and remembers the others.
struct NonNegative {
    seen: Vec<i32>,
}

impl Logger<i32> for NonNegative {
    type Error = String;

    fn log(&mut self, item: i32) -> Result<(), String> {
        if item < 0 {
            Err(format!("negative: {}", item))
        } else {
            self.seen.push(item);
            Ok(())
        }
    }
}

#[test]
fn test_chain() {
    let mut fst = extender(Vec::new());
    let mut snd = extender(Vec::new());
    let mut thd = fst.by_ref().chain(&mut snd);
    thd.log(0).unwrap();
    assert_eq!(&fst.container, &[0]);
    assert_eq!(&snd.container, &[0]);
}

#[test]
fn test_filter() {
    let mut fst = extender(Vec::new());
    let mut snd = fst.by_ref().filter(|&i| i >= 0);
    snd.log(-1).unwrap();
    snd.log(0).unwrap();
    snd.log(1).unwrap();
    assert_eq!(&fst.container, &[0, 1]);
}

#[test]
fn test_map() {
    let mut fst = extender(Vec::new());
    let mut snd = fst.by_ref().map(|i: i32| i.abs());
    snd.log(-1).unwrap();
    snd.log(0).unwrap();
    snd.log(1).unwrap();
    assert_eq!(&fst.container, &[1, 0, 1]);
}

#[test]
fn chain_stops_at_first_failure() {
    let mut fst = NonNegative { seen: Vec::new() };
    let mut snd: Extender<Vec<i32>, i32> = extender(Vec::new());
    {
        let mut both = fst.by_ref().chain(snd.by_ref().map(|i: i32| i).safe::<String>());
        assert_eq!(both.log(-2), Err("negative: -2".to_string()));
        assert_eq!(both.log(4), Ok(()));
    }
    assert_eq!(fst.seen, vec![4]);
    assert_eq!(snd.container, vec![4]);
}

#[test]
fn chain_reports_second_failure() {
    let mut fst: Extender<Vec<i32>, i32> = extender(Vec::new());
    let mut snd = NonNegative { seen: Vec::new() };
    {
        let mut both = fst.by_ref().safe::<String>().chain(&mut snd);
        assert_eq!(both.log(-3), Err("negative: -3".to_string()));
        assert_eq!(both.log(3), Ok(()));
    }
    assert_eq!(fst.container, vec![-3, 3]);
    assert_eq!(snd.seen, vec![3]);
}

#[test]
fn filter_skips_without_calling_inner() {
    let mut inner = NonNegative { seen: Vec::new() };
    {
        let mut f = inner.by_ref().filter(|&i| i % 2 == 0);
        assert_eq!(f.log(-3), Ok(()));
        assert_eq!(f.log(-4), Err("negative: -4".to_string()));
        assert_eq!(f.log(6), Ok(()));
    }
    assert_eq!(inner.seen, vec![6]);
}

#[test]
fn map_hands_on_the_mapped_item() {
    let mut inner = NonNegative { seen: Vec::new() };
    {
        let mut m = inner.by_ref().map(|i: i32| i - 10);
        assert_eq!(m.log(3), Err("negative: -7".to_string()));
        assert_eq!(m.log(15), Ok(()));
    }
    assert_eq!(inner.seen, vec![5]);
}

#[test]
fn map_changes_the_item_type() {
    let mut lengths: Extender<Vec<usize>, usize> = extender(Vec::new());
    {
        let mut m = lengths.by_ref().map(|s: &str| s.len());
        m.log("abc").unwrap();
        m.log("").unwrap();
    }
    assert_eq!(lengths.container, vec![3, 0]);
}

#[test]
fn safe_reports_success_on_failure() {
    let mut inner = NonNegative { seen: Vec::new() };
    {
        let mut s = inner.by_ref().safe::<()>();
        assert_eq!(s.log(-1), Ok(()));
        assert_eq!(s.log(2), Ok(()));
    }
    assert_eq!(inner.seen, vec![2]);
}

#[test]
fn empty_accepts_everything() {
    let mut e: Empty<i32, String> = empty();
    assert_eq!(e.log(0), Ok(()));
    assert_eq!(e.log(i32::MIN), Ok(()));
    let mut s: Empty<&str, ()> = empty();
    assert_eq!(s.log("anything"), Ok(()));
}

#[test]
fn chain_with_empty_on_the_right() {
    let mut c = NonNegative { seen: Vec::new() };
    {
        let mut both = c.by_ref().chain(empty::<i32, String>());
        assert_eq!(both.log(-1), Err("negative: -1".to_string()));
        assert_eq!(both.log(1), Ok(()));
    }
    assert_eq!(c.seen, vec![1]);
}

#[test]
fn chain_with_empty_on_the_left() {
    let mut c = NonNegative { seen: Vec::new() };
    {
        let mut both = empty::<i32, String>().chain(c.by_ref());
        assert_eq!(both.log(-1), Err("negative: -1".to_string()));
        assert_eq!(both.log(1), Ok(()));
    }
    assert_eq!(c.seen, vec![1]);
}

#[test]
fn extender_keeps_order_and_duplicates() {
    let mut e = extender(vec![9]);
    for i in [3, 1, 3, 2] {
        e.log(i).unwrap();
    }
    assert_eq!(e.container, vec![9, 3, 1, 3, 2]);
}

#[test]
fn extender_starts_empty() {
    let e: Extender<Vec<u8>, u8> = extender(Vec::new());
    assert!(e.container.is_empty());
}
