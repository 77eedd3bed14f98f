use anytest::line_range::LineBound;
use anytest::line_range::LRange;
use anytest::line_select::select_lines;
use anytest::AnytestError;

fn range(start: LineBound, end: LineBound) -> LRange {
    LRange::try_from_range(start, end).unwrap()
}

#[test]
fn test_try_from_range_unbounded_end_is_ascending() {
    // an unbounded range is always ascending, whatever the start
    for start in [1usize, 2, 50, 1000] {
        let r = range(LineBound::Included(start), LineBound::Unbounded);
        assert_eq!(r.start(), start);
        assert!(r.is_asc());
        assert!(!r.is_desc());
    }
}

#[test]
fn test_try_from_range_directions() {
    let r = range(LineBound::Included(2), LineBound::Included(6));
    assert!(r.is_asc());

    let r = range(LineBound::Included(6), LineBound::Included(2));
    assert!(r.is_desc());

    let r = range(LineBound::Included(3), LineBound::Included(3));
    assert!(r.is_asc());

    let r = range(LineBound::Unbounded, LineBound::Included(4));
    assert_eq!(r.start(), 1);
    assert!(r.is_asc());
}

#[test]
fn test_try_from_range_excluded_end() {
    // exclusive ends are pulled one step towards the start
    let mut r = range(LineBound::Included(1), LineBound::Excluded(5));
    assert_eq!(r.to_vec(), vec![1, 2, 3, 4]);

    let mut r = range(LineBound::Included(5), LineBound::Excluded(1));
    assert_eq!(r.to_vec(), vec![5, 4, 3, 2]);
}

#[test]
fn test_excluded_start_treated_as_included() {
    let r = range(LineBound::Excluded(3), LineBound::Included(5));
    assert_eq!(r.start(), 3);
    assert!(r.is_asc());
}

#[test]
fn test_try_from_range_rejects_zero() {
    assert_eq!(
        LRange::try_from_range(LineBound::Included(0), LineBound::Excluded(5)).unwrap_err(),
        AnytestError::InvalidLowerBound
    );
    assert_eq!(
        LRange::try_from_range(LineBound::Included(1), LineBound::Excluded(1)).unwrap_err(),
        AnytestError::InvalidUpperBound
    );
    assert_eq!(
        LRange::try_from_range(LineBound::Included(1), LineBound::Included(0)).unwrap_err(),
        AnytestError::InvalidUpperBound
    );
}

#[test]
fn test_new_validates_bounds() {
    assert!(LRange::new(1, 1, None).is_ok());
    assert_eq!(
        LRange::new(0, 1, None).unwrap_err(),
        AnytestError::InvalidLowerBound
    );
    assert_eq!(
        LRange::new(3, -1, Some(0)).unwrap_err(),
        AnytestError::InvalidUpperBound
    );
}

#[test]
fn test_forward_to() {
    let r = range(LineBound::Included(4), LineBound::Included(9));
    assert_eq!(r.forward_to(), 4);

    let r = range(LineBound::Included(9), LineBound::Included(4));
    assert_eq!(r.forward_to(), 10);
}

#[test]
fn test_next_steps_and_exhausts() {
    let mut r = range(LineBound::Included(2), LineBound::Included(4));
    assert_eq!(r.next(), Some(2));
    assert_eq!(r.next(), Some(3));
    assert_eq!(r.next(), Some(4));
    assert_eq!(r.next(), None);
    assert_eq!(r.next(), None);

    let mut r = range(LineBound::Included(3), LineBound::Included(1));
    assert_eq!(r.next(), Some(3));
    assert_eq!(r.next(), Some(2));
    assert_eq!(r.next(), Some(1));
    assert_eq!(r.next(), None);
}

#[test]
fn test_iteration_parity() {
    // a bounded range yields |end - start| + 1 values either way
    let mut r = range(LineBound::Included(2), LineBound::Included(6));
    assert_eq!(r.to_vec().len(), 5);

    let mut r = range(LineBound::Included(6), LineBound::Included(2));
    assert_eq!(r.to_vec().len(), 5);

    let mut r = range(LineBound::Included(7), LineBound::Included(7));
    assert_eq!(r.to_vec().len(), 1);
}

fn nine_lines() -> Vec<String> {
    (1..=9).map(|i| format!("line{}", i)).collect()
}

fn get_lines(start: LineBound, end: LineBound) -> Result<Vec<(String, usize)>, AnytestError> {
    let r = LRange::try_from_range(start, end)?;
    select_lines(&nine_lines(), &r)
}

fn pairs(expected: &[(u32, u32)]) -> Vec<(String, usize)> {
    expected
        .iter()
        .map(|(text, nr)| (format!("line{}", text), *nr as usize))
        .collect()
}

#[test]
fn test_rel_path_lines() {
    assert_eq!(
        get_lines(LineBound::Unbounded, LineBound::Unbounded).unwrap(),
        pairs(&[
            (1, 1),
            (2, 2),
            (3, 3),
            (4, 4),
            (5, 5),
            (6, 6),
            (7, 7),
            (8, 8),
            (9, 9)
        ])
    );

    assert_eq!(
        get_lines(LineBound::Unbounded, LineBound::Excluded(5)).unwrap(),
        pairs(&[(1, 1), (2, 2), (3, 3), (4, 4)])
    );

    assert_eq!(
        get_lines(LineBound::Included(2), LineBound::Included(6)).unwrap(),
        pairs(&[(2, 2), (3, 3), (4, 4), (5, 5), (6, 6)])
    );

    assert_eq!(
        get_lines(LineBound::Included(7), LineBound::Unbounded).unwrap(),
        pairs(&[(7, 7), (8, 8), (9, 9)])
    );

    assert_eq!(
        get_lines(LineBound::Included(5), LineBound::Excluded(1)).unwrap(),
        pairs(&[(5, 5), (4, 4), (3, 3), (2, 2)])
    );

    assert_eq!(
        get_lines(LineBound::Included(6), LineBound::Included(1)).unwrap(),
        pairs(&[(6, 6), (5, 5), (4, 4), (3, 3), (2, 2), (1, 1)])
    );

    assert_eq!(
        get_lines(LineBound::Included(1), LineBound::Included(1)).unwrap(),
        pairs(&[(1, 1)])
    );

    assert_eq!(
        get_lines(LineBound::Included(0), LineBound::Excluded(5)).unwrap_err(),
        AnytestError::InvalidLowerBound
    );

    assert_eq!(
        get_lines(LineBound::Included(1), LineBound::Excluded(1)).unwrap_err(),
        AnytestError::InvalidUpperBound
    );
}

#[test]
fn test_select_lines_bounds() {
    // one line past the end still opens; two lines past does not
    assert_eq!(
        get_lines(LineBound::Included(10), LineBound::Unbounded).unwrap(),
        vec![]
    );
    assert_eq!(
        get_lines(LineBound::Included(11), LineBound::Unbounded).unwrap_err(),
        AnytestError::LineNotFound(11)
    );
    assert_eq!(
        get_lines(LineBound::Included(10), LineBound::Included(1)).unwrap_err(),
        AnytestError::LineNotFound(11)
    );
}

#[test]
fn test_streaming_round() {
    // ascending over the whole file enumerates it; descending reverses it
    let lines = nine_lines();
    let asc = LRange::try_from_range(LineBound::Included(1), LineBound::Included(9)).unwrap();
    let up = select_lines(&lines, &asc).unwrap();
    assert_eq!(up.len(), 9);
    for (i, (text, nr)) in up.iter().enumerate() {
        assert_eq!(text, &lines[i]);
        assert_eq!(*nr, i + 1);
    }

    let desc = LRange::try_from_range(LineBound::Included(9), LineBound::Included(1)).unwrap();
    let down = select_lines(&lines, &desc).unwrap();
    let mut up_rev = up.clone();
    up_rev.reverse();
    assert_eq!(down, up_rev);
}
