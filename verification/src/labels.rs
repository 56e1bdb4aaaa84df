//! What holds of the eight labels: each belongs to a kind of failure and not
//! to the failure owned, none is empty, no two kinds share one, and none
//! opens another, so a report tells its kind.

use crate::error::TwilioErr;
use vstd::prelude::*;

verus! {

/// Whether two errors are of the same kind, whatever failures they own.
pub open spec fn same_kind(a: TwilioErr, b: TwilioErr) -> bool {
    &&& a is Io <==> b is Io
    &&& a is UrlParse <==> b is UrlParse
    &&& a is NetworkErr <==> b is NetworkErr
    &&& a is SerdeErr <==> b is SerdeErr
    &&& a is BorrowErr <==> b is BorrowErr
    &&& a is Utf8Err <==> b is Utf8Err
    &&& a is HttpErr <==> b is HttpErr
    &&& a is HeaderErr <==> b is HeaderErr
}

/// Makes the characters of the eight labels known.
proof fn reveal_labels()
    ensures
        "IO Error: "@.len() == 10,
        "IO Error: "@[0] == 'I',
        "Serde JSON Error: "@.len() == 18,
        "Serde JSON Error: "@[0] == 'S',
        "URL parse error: "@.len() == 17,
        "URL parse error: "@[0] == 'U',
        "There was a network error. "@.len() == 27,
        "There was a network error. "@[0] == 'T',
        "Error trying to get client reference. "@.len() == 38,
        "Error trying to get client reference. "@[0] == 'E',
        "Error trying to get client reference. "@[6] == 't',
        "Error converting to utf-8 string: "@.len() == 34,
        "Error converting to utf-8 string: "@[0] == 'E',
        "Error converting to utf-8 string: "@[6] == 'c',
        "Error converting to utf-8 string: "@[7] == 'o',
        "Http error when building req: "@.len() == 30,
        "Http error when building req: "@[0] == 'H',
        "Error creating header value: "@.len() == 29,
        "Error creating header value: "@[0] == 'E',
        "Error creating header value: "@[6] == 'c',
        "Error creating header value: "@[7] == 'r',
{
    reveal_strlit("IO Error: ");
    reveal_strlit("Serde JSON Error: ");
    reveal_strlit("URL parse error: ");
    reveal_strlit("There was a network error. ");
    reveal_strlit("Error trying to get client reference. ");
    reveal_strlit("Error converting to utf-8 string: ");
    reveal_strlit("Http error when building req: ");
    reveal_strlit("Error creating header value: ");
}

/// Every label has at least ten characters; none is empty.
pub proof fn lemma_label_is_not_empty(e: TwilioErr)
    ensures
        e.label()@.len() >= 10,
{
    reveal_labels();
}

/// The label is fixed by the kind: two errors of the same kind have the same
/// label, whatever failures they own.
pub proof fn lemma_label_is_fixed_by_kind(a: TwilioErr, b: TwilioErr)
    requires
        same_kind(a, b),
    ensures
        a.label() == b.label(),
{
}

/// No label opens another: where the label of one error is a prefix of the
/// label of a second, the two errors are of the same kind.
pub proof fn lemma_labels_are_prefix_free(a: TwilioErr, b: TwilioErr)
    requires
        a.label()@.is_prefix_of(b.label()@),
    ensures
        same_kind(a, b),
{
    reveal_labels();
    let la = a.label()@;
    let lb = b.label()@;
    let head = lb.subrange(0, la.len() as int);
    assert(la[0] == head[0] && la[6] == head[6] && la[7] == head[7]);
}

/// No two kinds of failure share a label: two errors with the same label are
/// of the same kind.
pub proof fn lemma_labels_are_distinct(a: TwilioErr, b: TwilioErr)
    requires
        a.label()@ == b.label()@,
    ensures
        same_kind(a, b),
{
    let la = a.label()@;
    assert(la =~= la.subrange(0, la.len() as int));
    lemma_labels_are_prefix_free(a, b);
}

/// A report tells its kind: where one string is a report of two errors, the
/// two are of the same kind.
pub proof fn lemma_report_tells_kind(a: TwilioErr, b: TwilioErr, line: Seq<char>)
    requires
        a.described_by(line),
        b.described_by(line),
    ensures
        same_kind(a, b),
{
    let ta = choose|t: String| #[trigger] a.cause_renders_as(t) && line == a.label()@ + t@;
    let tb = choose|t: String| #[trigger] b.cause_renders_as(t) && line == b.label()@ + t@;
    let la = a.label()@;
    let lb = b.label()@;
    assert(line.subrange(0, la.len() as int) =~= la);
    assert(line.subrange(0, lb.len() as int) =~= lb);
    if la.len() <= lb.len() {
        assert(lb.subrange(0, la.len() as int) =~= line.subrange(0, la.len() as int));
        lemma_labels_are_prefix_free(a, b);
    } else {
        assert(la.subrange(0, lb.len() as int) =~= line.subrange(0, lb.len() as int));
        lemma_labels_are_prefix_free(b, a);
    }
}

} // verus!
