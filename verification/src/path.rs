//! Paths into a document: the segments that lead from the root to a node, and
//! the text that a path is shown as.

use vstd::prelude::*;

verus! {

/// One step from a node of the document to a node below it.
#[derive(Debug, Clone, PartialEq, Eq)]
pub enum PathSegment {
    /// Into the element of an array at this position, counted from zero.
    Index(usize),
    /// Into the member of an object under this key.
    Field(String),
    /// Into the content of an enumerated value of this variant.
    Variant(String),
    /// Into a member whose key cannot be shown as text.
    Unknown,
}

/// A segment as a mathematical value.
pub enum SegmentView {
    Index(nat),
    Field(Seq<char>),
    Variant(Seq<char>),
    Unknown,
}

impl View for PathSegment {
    type V = SegmentView;

    open spec fn view(&self) -> SegmentView {
        match *self {
            PathSegment::Index(position) => SegmentView::Index(position as nat),
            PathSegment::Field(key) => SegmentView::Field(key@),
            PathSegment::Variant(name) => SegmentView::Variant(name@),
            PathSegment::Unknown => SegmentView::Unknown,
        }
    }
}

/// A path as the sequence of its segments' views, root first.
pub open spec fn path_view(path: Seq<PathSegment>) -> Seq<SegmentView> {
    path.map_values(|segment: PathSegment| segment@)
}

/// The character that stands for a digit; `'0'` for anything above nine.
pub open spec fn digit_char(digit: nat) -> char {
    if digit == 1 {
        '1'
    } else if digit == 2 {
        '2'
    } else if digit == 3 {
        '3'
    } else if digit == 4 {
        '4'
    } else if digit == 5 {
        '5'
    } else if digit == 6 {
        '6'
    } else if digit == 7 {
        '7'
    } else if digit == 8 {
        '8'
    } else if digit == 9 {
        '9'
    } else {
        '0'
    }
}

/// A number in decimal notation, most significant digit first, without
/// leading zeros.
pub open spec fn decimal(number: nat) -> Seq<char>
    decreases number,
{
    if number < 10 {
        seq![digit_char(number)]
    } else {
        decimal(number / 10).push(digit_char(number % 10))
    }
}

/// The text of one segment: an index between square brackets, a key or a
/// variant name as it is, a question mark for a key that has no text.
pub open spec fn segment_text(segment: SegmentView) -> Seq<char> {
    match segment {
        SegmentView::Index(position) => seq!['['] + decimal(position) + seq![']'],
        SegmentView::Field(key) => key,
        SegmentView::Variant(name) => name,
        SegmentView::Unknown => seq!['?'],
    }
}

/// Whether a dot stands before a segment: before every segment but the first
/// of a path and but an index.
pub open spec fn dot_before(position: int, segment: SegmentView) -> bool {
    position > 0 && !(segment is Index)
}

/// The text of a path, such as `items[3].name`. The path of the root, which
/// has no segment, is the empty text.
pub open spec fn path_text(path: Seq<SegmentView>) -> Seq<char>
    decreases path.len(),
{
    if path.len() == 0 {
        Seq::empty()
    } else {
        let dot = if dot_before(path.len() - 1, path.last()) {
            seq!['.']
        } else {
            Seq::empty()
        };
        path_text(path.drop_last()) + dot + segment_text(path.last())
    }
}

/// The root has no text: a path without segments is shown as nothing at
/// all, not as a sign that stands for it.
pub proof fn lemma_root_path_is_empty()
    ensures
        path_text(Seq::<SegmentView>::empty()) == Seq::<char>::empty(),
{
}

/// A path grows at its end: the text of a path with one more segment is the
/// text of the path, then a dot where one is due, then the segment's text.
pub proof fn lemma_path_text_push(path: Seq<SegmentView>, segment: SegmentView)
    ensures
        path_text(path.push(segment)) == path_text(path) + (if dot_before(
            path.len() as int,
            segment,
        ) {
            seq!['.']
        } else {
            Seq::<char>::empty()
        }) + segment_text(segment),
{
    assert(path.push(segment).drop_last() =~= path);
}

/// A member of the root object is shown by its key alone.
pub proof fn lemma_field_of_root(key: Seq<char>)
    ensures
        path_text(seq![SegmentView::Field(key)]) == key,
{
    lemma_path_text_push(Seq::empty(), SegmentView::Field(key));
    assert(Seq::<SegmentView>::empty().push(SegmentView::Field(key)) =~= seq![
        SegmentView::Field(key),
    ]);
}

/// Every number has at least one digit.
pub proof fn lemma_decimal_is_not_empty(number: nat)
    ensures
        decimal(number).len() >= 1,
    decreases number,
{
    if number >= 10 {
        lemma_decimal_is_not_empty(number / 10);
    }
}

/// The notation tells numbers apart: two numbers that are written the same
/// are the same number.
pub proof fn lemma_decimal_identifies_number(first: nat, second: nat)
    requires
        decimal(first) == decimal(second),
    ensures
        first == second,
    decreases first,
{
    if first < 10 && second < 10 {
        // One digit each, and the same digit.
        assert(decimal(first)[0] == digit_char(first));
        assert(decimal(second)[0] == digit_char(second));
    } else if first >= 10 && second >= 10 {
        // The same last digit, and the same digits before it.
        assert(decimal(first).last() == digit_char(first % 10));
        assert(decimal(second).last() == digit_char(second % 10));
        assert(decimal(first).drop_last() =~= decimal(first / 10));
        assert(decimal(second).drop_last() =~= decimal(second / 10));
        lemma_decimal_identifies_number(first / 10, second / 10);
    } else if first < 10 {
        // One digit against two or more.
        lemma_decimal_is_not_empty(second / 10);
        assert(decimal(second).len() == decimal(second / 10).len() + 1);
    } else {
        lemma_decimal_is_not_empty(first / 10);
        assert(decimal(first).len() == decimal(first / 10).len() + 1);
    }
}

/// The text of an index names one position and no other.
pub proof fn lemma_index_text_identifies_position(first: nat, second: nat)
    requires
        segment_text(SegmentView::Index(first)) == segment_text(SegmentView::Index(second)),
    ensures
        first == second,
{
    let a = segment_text(SegmentView::Index(first));
    let b = segment_text(SegmentView::Index(second));
    assert(a.subrange(1, a.len() - 1) =~= decimal(first));
    assert(b.subrange(1, b.len() - 1) =~= decimal(second));
    lemma_decimal_identifies_number(first, second);
}

/// The one-character text of a digit.
fn digit_str(digit: usize) -> (text: &'static str)
    requires
        digit < 10,
    ensures
        text@ == seq![digit_char(digit as nat)],
{
    proof {
        reveal_strlit("0");
        reveal_strlit("1");
        reveal_strlit("2");
        reveal_strlit("3");
        reveal_strlit("4");
        reveal_strlit("5");
        reveal_strlit("6");
        reveal_strlit("7");
        reveal_strlit("8");
        reveal_strlit("9");
    }
    let text = if digit == 0 {
        "0"
    } else if digit == 1 {
        "1"
    } else if digit == 2 {
        "2"
    } else if digit == 3 {
        "3"
    } else if digit == 4 {
        "4"
    } else if digit == 5 {
        "5"
    } else if digit == 6 {
        "6"
    } else if digit == 7 {
        "7"
    } else if digit == 8 {
        "8"
    } else {
        "9"
    };
    text
}

/// Appends a number in decimal notation.
fn append_decimal(out: &mut String, number: usize)
    ensures
        final(out)@ == old(out)@ + decimal(number as nat),
    decreases number,
{
    if number >= 10 {
        append_decimal(out, number / 10);
    }
    out.append(digit_str(number % 10));
}

/// Appends the text of one segment.
fn append_segment(out: &mut String, segment: &PathSegment)
    ensures
        final(out)@ == old(out)@ + segment_text(segment@),
{
    match segment {
        PathSegment::Index(position) => {
            proof {
                reveal_strlit("[");
                reveal_strlit("]");
            }
            out.append("[");
            append_decimal(out, *position);
            out.append("]");
        },
        PathSegment::Field(key) => {
            out.append(key.as_str());
        },
        PathSegment::Variant(name) => {
            out.append(name.as_str());
        },
        PathSegment::Unknown => {
            proof {
                reveal_strlit("?");
            }
            out.append("?");
        },
    }
}

/// Whether a segment is an index into an array.
fn is_index(segment: &PathSegment) -> (answer: bool)
    ensures
        answer == (segment@ is Index),
{
    match segment {
        PathSegment::Index(_) => true,
        _ => false,
    }
}

/// Shows a path as text: keys joined by dots, indexes in square brackets
/// behind what they index, and nothing at all for the root.
pub fn render_path(path: &[PathSegment]) -> (text: String)
    ensures
        text@ == path_text(path_view(path@)),
{
    let mut text = String::new();
    let mut done: usize = 0;
    while done < path.len()
        invariant
            done <= path.len(),
            text@ == path_text(path_view(path@).take(done as int)),
        decreases path.len() - done,
    {
        let segment = &path[done];
        proof {
            let before = path_view(path@).take(done as int);
            assert(path_view(path@).take(done + 1) =~= before.push(segment@));
            lemma_path_text_push(before, segment@);
            reveal_strlit(".");
        }
        if done > 0 && !is_index(segment) {
            text.append(".");
        }
        append_segment(&mut text, segment);
        done = done + 1;
    }
    assert(path_view(path@).take(done as int) =~= path_view(path@));
    text
}

} // verus!
