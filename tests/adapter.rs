use fmt_iter::{repeat, FmtIter};
use fmt_iter::source::{RepeatN, SliceIter, Source};
use fmt_iter::text::{write_decimal, write_signed_decimal, Textual};
use pipe_trait::Pipe;

#[test]
fn display_repeat_char() {
    assert_eq!(repeat('x', 3).to_string(), "xxx");
}

#[test]
fn display_slice_char() {
    let actual = ['a', 'b', 'c'].pipe_as_ref(FmtIter::from).to_string();
    let expected = "abc";
    assert_eq!(actual, expected);
}

#[test]
fn display_repeat_string() {
    assert_eq!(repeat("abc", 3).to_string(), "abcabcabc");
}

#[test]
fn display_slice_string() {
    let actual = ["abc", "def", "ghi"].pipe_as_ref(FmtIter::from).to_string();
    let expected = "abcdefghi";
    assert_eq!(actual, expected);
}

#[test]
fn iter() {
    let actual: Vec<_> = repeat('x', 5).collect();
    let expected = ['x', 'x', 'x', 'x', 'x'];
    assert_eq!(actual, expected);
}

#[test]
fn exact_size_iter() {
    let actual = FmtIter::from(&[0, 1, 2, 3, 4]).len();
    let expected = 5;
    assert_eq!(actual, expected);
}

#[test]
fn repeat_len() {
    let actual = repeat('x', 5).len();
    let expected = 5;
    assert_eq!(actual, expected);
}

#[test]
fn slice_of_numbers_renders_digits() {
    assert_eq!(FmtIter::from(&[0, 12, 345]).to_string(), "012345");
}

#[test]
fn array_reference_renders_like_slice() {
    let arr = [0, 1, 2, 3];
    assert_eq!(FmtIter::from_array(&arr).to_string(), "0123");
    assert_eq!(FmtIter::from_array(&arr).len(), 4);
}

#[test]
fn source_wrapped_directly() {
    let arr = [0u64, 1, 2, 3];
    let a = FmtIter::new(SliceIter::new(&arr));
    assert_eq!(a.to_string(), "0123");
}

#[test]
fn repeat_char_five_times() {
    assert_eq!(repeat('x', 5).to_string(), "xxxxx");
}

#[test]
fn repeat_number() {
    assert_eq!(repeat(123, 5).to_string(), "123123123123123");
}

#[test]
fn repeat_zero_times_is_empty() {
    assert_eq!(repeat('x', 0).to_string(), "");
    assert_eq!(repeat("abc", 0).to_string(), "");
    assert_eq!(repeat('x', 0).len(), 0);
}

#[test]
fn empty_slice_renders_nothing() {
    let items: [char; 0] = [];
    let a = FmtIter::from(&items);
    assert_eq!(a.to_string(), "");
    assert_eq!(a.len(), 0);
}

#[test]
fn iteration_matches_wrapped_source() {
    let items = ['p', 'q', 'r'];
    let mut direct = SliceIter::new(&items);
    let mut wrapped = FmtIter::from(&items);
    for _ in 0..4 {
        assert_eq!(wrapped.next(), direct.next());
        assert_eq!(wrapped.len(), direct.len());
    }
    assert_eq!(wrapped.next(), None);
}

#[test]
fn next_yields_in_order_and_then_none() {
    let items = [10, 20];
    let mut a = FmtIter::from(&items);
    assert_eq!(a.size_hint(), (2, Some(2)));
    assert_eq!(a.next(), Some(&10));
    assert_eq!(a.size_hint(), (1, Some(1)));
    assert_eq!(a.to_string(), "20");
    assert_eq!(a.next(), Some(&20));
    assert_eq!(a.next(), None);
    assert_eq!(a.size_hint(), (0, Some(0)));
    assert_eq!(a.to_string(), "");
}

#[test]
fn rendering_leaves_position_untouched() {
    let a = repeat('y', 3);
    assert_eq!(a.to_string(), "yyy");
    assert_eq!(a.to_string(), "yyy");
    assert_eq!(a.len(), 3);
}

#[test]
fn exact_len_matches_source() {
    let source = RepeatN::new(7u32, 9);
    assert_eq!(source.len(), 9);
    let a = FmtIter::new(source.fork());
    assert_eq!(a.len(), 9);
    assert_eq!(a.into_inner().len(), 9);
}

#[test]
fn write_to_appends() {
    let mut out = String::from("=>");
    FmtIter::from(&["ab", "", "c"]).write_to(&mut out);
    assert_eq!(out, "=>abc");
}

#[test]
fn owned_strings_render() {
    let items = [String::from("x1"), String::from("y2")];
    assert_eq!(FmtIter::from(&items).to_string(), "x1y2");
    assert_eq!(FmtIter::from(&items).as_inner().len(), 2);
}

#[test]
fn negative_and_extreme_numbers() {
    assert_eq!(FmtIter::from(&[-5i64, 0, 7]).to_string(), "-507");
    assert_eq!(FmtIter::from(&[i64::MIN]).to_string(), "-9223372036854775808");
    assert_eq!(FmtIter::from(&[u64::MAX]).to_string(), "18446744073709551615");
    assert_eq!(FmtIter::from(&[i32::MIN, -1]).to_string(), "-2147483648-1");
    assert_eq!(FmtIter::from(&[u32::MAX as usize, 40]).to_string(), "429496729540");
}

#[test]
fn decimal_writers() {
    let mut out = String::new();
    write_decimal(&mut out, 0);
    write_decimal(&mut out, 1009);
    write_signed_decimal(&mut out, -30);
    assert_eq!(out, "01009-30");
}

#[test]
fn textual_of_each_kind() {
    let mut out = String::new();
    'c'.write_text(&mut out);
    "str".write_text(&mut out);
    String::from("own").write_text(&mut out);
    (&42u64).write_text(&mut out);
    (-42i32).write_text(&mut out);
    assert_eq!(out, "cstrown42-42");
}

#[test]
fn adapter_wraps_adapter() {
    let items = ["ab", "cd"];
    let mut outer = FmtIter::new(FmtIter::from(&items));
    assert_eq!(outer.to_string(), "abcd");
    assert_eq!(outer.next(), Some(&"ab"));
    assert_eq!(outer.to_string(), "cd");
    assert_eq!(outer.len(), 1);
}

#[test]
fn copies_are_independent() {
    let items = [1, 2, 3];
    let mut a = FmtIter::from(&items);
    let b = a;
    let c = a.clone();
    a.next();
    assert_eq!(a.to_string(), "23");
    assert_eq!(b.to_string(), "123");
    assert_eq!(c.len(), 3);
}

#[test]
fn repeat_by_reference() {
    let word = String::from("ha");
    assert_eq!(repeat(&word, 3).to_string(), "hahaha");
}
