//! The Markdown view of a status answer: its top-level fields in key order,
//! nested objects shown by their status or their size, and the warnings
//! gathered at the end.

use vstd::prelude::*;

use crate::text::{
    decimal, lemma_lex_irreflexive, lemma_lex_total, lemma_lex_transitive, lex_lt, str_eq,
    str_lt, u64_to_decimal,
};

verus! {

/// A top-level value of a status answer, as much of it as the Markdown view
/// shows.
#[derive(Clone, Debug, PartialEq, Eq)]
pub enum StatusFieldValueV1 {
    Text(String),
    /// A number in its JSON rendering.
    Number(String),
    Bool(bool),
    /// An array, by its length.
    Array(u64),
    /// An object, by its own `status` text (when it has one) and its size.
    Object { status: Option<String>, fields: u64 },
    Null,
}

pub enum StatusFieldView {
    Text(Seq<char>),
    Number(Seq<char>),
    Bool(bool),
    Array(u64),
    Object(Option<Seq<char>>, u64),
    Null,
}

impl View for StatusFieldValueV1 {
    type V = StatusFieldView;

    open spec fn view(&self) -> StatusFieldView {
        match self {
            StatusFieldValueV1::Text(s) => StatusFieldView::Text(s@),
            StatusFieldValueV1::Number(n) => StatusFieldView::Number(n@),
            StatusFieldValueV1::Bool(b) => StatusFieldView::Bool(*b),
            StatusFieldValueV1::Array(n) => StatusFieldView::Array(*n),
            StatusFieldValueV1::Object { status, fields } => StatusFieldView::Object(
                match status {
                    Some(s) => Some(s@),
                    None => None,
                },
                *fields,
            ),
            StatusFieldValueV1::Null => StatusFieldView::Null,
        }
    }
}

/// One top-level entry of a status answer.
#[derive(Clone, Debug, PartialEq, Eq)]
pub struct StatusEntryV1 {
    pub key: String,
    pub value: StatusFieldValueV1,
}

impl View for StatusEntryV1 {
    type V = (Seq<char>, StatusFieldView);

    open spec fn view(&self) -> (Seq<char>, StatusFieldView) {
        (self.key@, self.value@)
    }
}

/// The Markdown view: labelled field texts in key order, then warnings.
#[derive(Clone, Debug, PartialEq, Eq)]
pub struct StatusMarkdownV1 {
    pub fields: Vec<(String, String)>,
    pub warnings: Vec<String>,
}

pub open spec fn entry_views(entries: Seq<StatusEntryV1>) -> Seq<(Seq<char>, StatusFieldView)> {
    entries.map_values(|e: StatusEntryV1| e@)
}

/// No two entries share a key, as in any JSON object.
pub open spec fn distinct_keys(entries: Seq<(Seq<char>, StatusFieldView)>) -> bool {
    forall|i: int, j: int| 0 <= i < j < entries.len() ==> #[trigger] entries[i].0 != #[trigger] entries[j].0
}

/// Each entry's key orders strictly before the next one's.
pub open spec fn keys_strictly_sorted(entries: Seq<(Seq<char>, StatusFieldView)>) -> bool {
    forall|i: int, j: int|
        0 <= i < j < entries.len() ==> lex_lt(#[trigger] entries[i].0, #[trigger] entries[j].0)
}

/// The entries in ascending key order.
pub open spec fn sorted_entries(entries: Seq<(Seq<char>, StatusFieldView)>) -> Seq<
    (Seq<char>, StatusFieldView),
> {
    choose|s: Seq<(Seq<char>, StatusFieldView)>|
        keys_strictly_sorted(s) && s.to_set() == entries.to_set()
}

/// `part` occurs somewhere in `s`.
pub open spec fn contains_text(s: Seq<char>, part: Seq<char>) -> bool {
    exists|i: int| 0 <= i <= s.len() - part.len() && #[trigger] s.subrange(i, i + part.len()) == part
}

/// A text entry whose key names a warning is gathered as a warning.
pub open spec fn is_warning(entry: (Seq<char>, StatusFieldView)) -> bool {
    contains_text(entry.0, "warning"@) && entry.1 is Text
}

/// The label and text an entry is shown with; nothing for a null.
pub open spec fn field_line(entry: (Seq<char>, StatusFieldView)) -> Option<(Seq<char>, Seq<char>)> {
    let k = entry.0;
    match entry.1 {
        StatusFieldView::Text(s) => Some((k, s)),
        StatusFieldView::Number(n) => Some((k, n)),
        StatusFieldView::Bool(b) => Some((k, if b { "true"@ } else { "false"@ })),
        StatusFieldView::Array(n) => Some((k, decimal(n as nat) + " item(s)"@)),
        StatusFieldView::Object(Some(status), _) => Some((k + ".status"@, status)),
        StatusFieldView::Object(None, n) => Some((k, "{"@ + decimal(n as nat) + " field(s)}"@)),
        StatusFieldView::Null => None,
    }
}

/// The fields and warnings of entries taken in the order given.
pub open spec fn markdown_of(entries: Seq<(Seq<char>, StatusFieldView)>) -> (
    Seq<(Seq<char>, Seq<char>)>,
    Seq<Seq<char>>,
)
    decreases entries.len(),
{
    if entries.len() == 0 {
        (Seq::empty(), Seq::empty())
    } else {
        let (fields, warnings) = markdown_of(entries.drop_last());
        let e = entries.last();
        if is_warning(e) {
            (fields, warnings.push(e.1->Text_0))
        } else {
            match field_line(e) {
                Some(line) => (fields.push(line), warnings),
                None => (fields, warnings),
            }
        }
    }
}

pub open spec fn markdown_view(m: StatusMarkdownV1) -> (Seq<(Seq<char>, Seq<char>)>, Seq<Seq<char>>) {
    (
        m.fields@.map_values(|f: (String, String)| (f.0@, f.1@)),
        m.warnings@.map_values(|w: String| w@),
    )
}

proof fn lemma_last_key_is_max(s: Seq<(Seq<char>, StatusFieldView)>, x: (Seq<char>, StatusFieldView))
    requires
        keys_strictly_sorted(s),
        s.len() > 0,
        s.to_set().contains(x),
    ensures
        x == s.last() || lex_lt(x.0, s.last().0),
{
    assert(s.contains(x));
    let i = choose|i: int| 0 <= i < s.len() && s[i] == x;
    if i < s.len() - 1 {
        assert(lex_lt(s[i].0, s[s.len() - 1].0));
    }
}

proof fn lemma_drop_last_entries(s: Seq<(Seq<char>, StatusFieldView)>)
    requires
        keys_strictly_sorted(s),
        s.len() > 0,
    ensures
        s.drop_last().to_set() == s.to_set().remove(s.last()),
{
    assert forall|x: (Seq<char>, StatusFieldView)| s.drop_last().to_set().contains(x) <==> s.to_set().remove(
        s.last(),
    ).contains(x) by {
        if s.drop_last().to_set().contains(x) {
            assert(s.drop_last().contains(x));
            let i = choose|i: int| 0 <= i < s.drop_last().len() && s.drop_last()[i] == x;
            assert(s[i] == x);
            assert(s.contains(x));
            assert(lex_lt(s[i].0, s[s.len() - 1].0));
            lemma_lex_irreflexive(x.0);
        }
        if s.to_set().remove(s.last()).contains(x) {
            assert(s.contains(x));
            let i = choose|i: int| 0 <= i < s.len() && s[i] == x;
            assert(i != s.len() - 1);
            assert(s.drop_last()[i] == x);
            assert(s.drop_last().contains(x));
        }
    }
    assert(s.drop_last().to_set() =~= s.to_set().remove(s.last()));
}

/// Two key-sorted entry lists with the same members are the same list.
pub proof fn lemma_sorted_entries_unique(
    a: Seq<(Seq<char>, StatusFieldView)>,
    b: Seq<(Seq<char>, StatusFieldView)>,
)
    requires
        keys_strictly_sorted(a),
        keys_strictly_sorted(b),
        a.to_set() == b.to_set(),
    ensures
        a == b,
    decreases a.len(),
{
    if a.len() == 0 {
        if b.len() > 0 {
            assert(b.contains(b[0]));
            assert(a.to_set().contains(b[0]));
            assert(a.contains(b[0]));
        }
        assert(a =~= b);
    } else {
        assert(a.contains(a.last()));
        assert(b.to_set().contains(a.last()));
        if b.len() == 0 {
            assert(b.contains(a.last()));
        }
        assert(b.contains(b.last()));
        assert(a.to_set().contains(b.last()));
        lemma_last_key_is_max(a, b.last());
        lemma_last_key_is_max(b, a.last());
        if a.last() != b.last() {
            lemma_lex_transitive(a.last().0, b.last().0, a.last().0);
            lemma_lex_irreflexive(a.last().0);
        }
        lemma_drop_last_entries(a);
        lemma_drop_last_entries(b);
        lemma_sorted_entries_unique(a.drop_last(), b.drop_last());
        assert(a =~= b.drop_last().push(b.last()));
        assert(b =~= b.drop_last().push(b.last()));
    }
}

fn copy_entry(e: &StatusEntryV1) -> (r: StatusEntryV1)
    ensures
        r@ == e@,
{
    let value = match &e.value {
        StatusFieldValueV1::Text(s) => StatusFieldValueV1::Text(s.clone()),
        StatusFieldValueV1::Number(n) => StatusFieldValueV1::Number(n.clone()),
        StatusFieldValueV1::Bool(b) => StatusFieldValueV1::Bool(*b),
        StatusFieldValueV1::Array(n) => StatusFieldValueV1::Array(*n),
        StatusFieldValueV1::Object { status, fields } => StatusFieldValueV1::Object {
            status: match status {
                Some(s) => Some(s.clone()),
                None => None,
            },
            fields: *fields,
        },
        StatusFieldValueV1::Null => StatusFieldValueV1::Null,
    };
    StatusEntryV1 { key: e.key.clone(), value }
}

/// Adds an entry whose key is not yet present to a key-sorted list.
fn insert_entry_sorted(v: &mut Vec<StatusEntryV1>, x: StatusEntryV1)
    requires
        keys_strictly_sorted(entry_views(old(v)@)),
        forall|j: int| 0 <= j < old(v)@.len() ==> #[trigger] old(v)@[j].key@ != x.key@,
    ensures
        keys_strictly_sorted(entry_views(final(v)@)),
        entry_views(final(v)@).to_set() == entry_views(old(v)@).to_set().insert(x@),
{
    let n = v.len();
    let mut i: usize = 0;
    while i < n && str_lt(v[i].key.as_str(), x.key.as_str())
        invariant
            n == v@.len(),
            0 <= i <= n,
            forall|j: int| 0 <= j < i ==> lex_lt(#[trigger] v@[j].key@, x.key@),
        decreases n - i,
    {
        i = i + 1;
    }
    let ghost before = v@;
    proof {
        if i < n {
            assert(!lex_lt(before[i as int].key@, x.key@));
            assert(before[i as int].key@ != x.key@);
            lemma_lex_total(before[i as int].key@, x.key@);
        }
    }
    v.insert(i, x);
    proof {
        let after = v@;
        let bv = entry_views(before);
        let av = entry_views(after);
        assert(after =~= before.subrange(0, i as int).push(x).add(before.subrange(i as int, n as int)));
        assert forall|p: int, q: int| 0 <= p < q < av.len() implies lex_lt(
            #[trigger] av[p].0,
            #[trigger] av[q].0,
        ) by {
            if q < i {
                assert(av[p] == bv[p] && av[q] == bv[q]);
            } else if q == i {
                assert(av[p] == bv[p]);
            } else if p == i {
                assert(av[q] == bv[q - 1]);
                if q - 1 > i {
                    lemma_lex_transitive(x.key@, bv[i as int].0, bv[q - 1].0);
                }
            } else if p < i {
                assert(av[p] == bv[p] && av[q] == bv[q - 1]);
            } else {
                assert(av[p] == bv[p - 1] && av[q] == bv[q - 1]);
            }
        }
        assert(av.to_set() =~= bv.to_set().insert(x@)) by {
            assert forall|t: (Seq<char>, StatusFieldView)| av.to_set().contains(t) <==> bv.to_set().insert(
                x@,
            ).contains(t) by {
                if av.to_set().contains(t) {
                    assert(av.contains(t));
                    let k = choose|k: int| 0 <= k < av.len() && av[k] == t;
                    if k < i {
                        assert(bv[k] == t);
                        assert(bv.contains(t));
                    } else if k > i {
                        assert(bv[k - 1] == t);
                        assert(bv.contains(t));
                    }
                }
                if bv.to_set().insert(x@).contains(t) {
                    if t == x@ {
                        assert(av[i as int] == t);
                        assert(av.contains(t));
                    } else {
                        assert(bv.contains(t));
                        let k = choose|k: int| 0 <= k < bv.len() && bv[k] == t;
                        if k < i {
                            assert(av[k] == t);
                        } else {
                            assert(av[k + 1] == t);
                        }
                        assert(av.contains(t));
                    }
                }
            }
        }
    }
}

/// Whether `part` occurs in `s`.
fn text_contains(s: &str, part: &str) -> (r: bool)
    ensures
        r == contains_text(s@, part@),
{
    let n = s.unicode_len();
    let m = part.unicode_len();
    if m > n {
        return false;
    }
    let last = n - m;
    let mut i: usize = 0;
    loop
        invariant
            n == s@.len(),
            m == part@.len(),
            last == n - m,
            0 <= i <= last,
            forall|j: int| 0 <= j < i ==> #[trigger] s@.subrange(j, j + m) != part@,
        decreases last - i,
    {
        if str_eq(s.substring_char(i, i + m), part) {
            return true;
        }
        if i == last {
            return false;
        }
        i = i + 1;
    }
}

fn label_of(key: &str, suffix: &str) -> (r: String)
    ensures
        r@ == key@ + suffix@,
{
    let mut label = String::from_str(key);
    label.append(suffix);
    label
}

/// The label and text of one entry, with whether it is a warning.
fn entry_line(e: &StatusEntryV1) -> (r: (bool, Option<(String, String)>))
    ensures
        r.0 == is_warning(e@),
        !r.0 ==> match r.1 {
            Some(line) => field_line(e@) == Some((line.0@, line.1@)),
            None => field_line(e@) is None,
        },
        r.0 ==> (r.1 matches Some(line) && e@.1 == StatusFieldView::Text(line.1@)),
{
    proof {
        reveal_strlit("warning");
    }
    let warning_key = text_contains(e.key.as_str(), "warning");
    match &e.value {
        StatusFieldValueV1::Text(s) => (warning_key, Some((e.key.clone(), s.clone()))),
        StatusFieldValueV1::Number(n) => (false, Some((e.key.clone(), n.clone()))),
        StatusFieldValueV1::Bool(b) => (
            false,
            Some((e.key.clone(), String::from_str(if *b { "true" } else { "false" }))),
        ),
        StatusFieldValueV1::Array(n) => {
            let mut text = u64_to_decimal(*n);
            text.append(" item(s)");
            (false, Some((e.key.clone(), text)))
        },
        StatusFieldValueV1::Object { status, fields } => match status {
            Some(status) => (false, Some((label_of(e.key.as_str(), ".status"), status.clone()))),
            None => {
                let mut text = String::from_str("{");
                text.append(u64_to_decimal(*fields).as_str());
                text.append(" field(s)}");
                (false, Some((e.key.clone(), text)))
            },
        },
        StatusFieldValueV1::Null => (false, None),
    }
}

/// The Markdown view of a status answer's top-level entries: fields in
/// ascending key order (a text entry whose key names a warning gathered
/// among the warnings instead, nulls left out), warnings in the same order.
pub fn status_markdown(entries: &Vec<StatusEntryV1>) -> (r: StatusMarkdownV1)
    requires
        distinct_keys(entry_views(entries@)),
    ensures
        markdown_view(r) == markdown_of(sorted_entries(entry_views(entries@))),
{
    let mut sorted: Vec<StatusEntryV1> = Vec::new();
    let mut i: usize = 0;
    while i < entries.len()
        invariant
            0 <= i <= entries@.len(),
            distinct_keys(entry_views(entries@)),
            keys_strictly_sorted(entry_views(sorted@)),
            entry_views(sorted@).to_set() == entry_views(entries@).take(i as int).to_set(),
            forall|j: int|
                0 <= j < sorted@.len() ==> exists|k: int|
                    0 <= k < i && #[trigger] sorted@[j].key@ == entry_views(entries@)[k].0,
        decreases entries.len() - i,
    {
        let ghost ev = entry_views(entries@);
        proof {
            assert forall|j: int| 0 <= j < sorted@.len() implies #[trigger] sorted@[j].key@
                != entries@[i as int].key@ by {
                let k = choose|k: int| 0 <= k < i && sorted@[j].key@ == ev[k].0;
                assert(ev[k].0 != ev[i as int].0);
            }
        }
        let ghost before = sorted@;
        let e = copy_entry(&entries[i]);
        insert_entry_sorted(&mut sorted, e);
        proof {
            assert(ev.take(i + 1) =~= ev.take(i as int).push(ev[i as int]));
            assert forall|t: (Seq<char>, StatusFieldView)| ev.take(i + 1).to_set().contains(t)
                <==> ev.take(i as int).to_set().insert(ev[i as int]).contains(t) by {
                let upto = ev.take(i + 1);
                let prior = ev.take(i as int);
                if upto.contains(t) {
                    let p = choose|p: int| 0 <= p < upto.len() && upto[p] == t;
                    if p < i {
                        assert(ev.take(i as int)[p] == t);
                        assert(ev.take(i as int).contains(t));
                    }
                }
                if prior.contains(t) {
                    let p = choose|p: int| 0 <= p < prior.len() && prior[p] == t;
                    assert(ev.take(i + 1)[p] == t);
                    assert(ev.take(i + 1).contains(t));
                }
                if t == ev[i as int] {
                    assert(ev.take(i + 1)[i as int] == t);
                    assert(ev.take(i + 1).contains(t));
                }
            }
            assert(ev.take(i + 1).to_set() =~= ev.take(i as int).to_set().insert(ev[i as int]));
            assert forall|j: int| 0 <= j < sorted@.len() implies exists|k: int|
                0 <= k < i + 1 && #[trigger] sorted@[j].key@ == ev[k].0 by {
                let t = entry_views(sorted@)[j];
                assert(entry_views(sorted@).contains(t));
                assert(entry_views(before).to_set().insert(ev[i as int]).contains(t));
                if t != ev[i as int] {
                    assert(entry_views(before).contains(t));
                    let p = choose|p: int| 0 <= p < before.len() && entry_views(before)[p] == t;
                    assert(before[p].key@ == t.0);
                    let k = choose|k: int| 0 <= k < i && before[p].key@ == ev[k].0;
                    assert(sorted@[j].key@ == ev[k].0);
                } else {
                    assert(sorted@[j].key@ == ev[i as int].0);
                }
            }
        }
        i = i + 1;
    }
    proof {
        let ev = entry_views(entries@);
        assert(ev.take(ev.len() as int) =~= ev);
        let s = entry_views(sorted@);
        assert(keys_strictly_sorted(s) && s.to_set() == ev.to_set());
        lemma_sorted_entries_unique(s, sorted_entries(ev));
    }
    let mut fields: Vec<(String, String)> = Vec::new();
    let mut warnings: Vec<String> = Vec::new();
    let mut k: usize = 0;
    while k < sorted.len()
        invariant
            0 <= k <= sorted@.len(),
            markdown_view(StatusMarkdownV1 { fields, warnings }) == markdown_of(
                entry_views(sorted@).take(k as int),
            ),
        decreases sorted.len() - k,
    {
        let ghost sv = entry_views(sorted@);
        proof {
            assert(sv.take(k + 1).drop_last() =~= sv.take(k as int));
            assert(sv.take(k + 1).last() == sorted@[k as int]@);
        }
        let ghost f0 = fields@;
        let ghost w0 = warnings@;
        let (warning, line) = entry_line(&sorted[k]);
        if warning {
            match line {
                Some((_, text)) => {
                    warnings.push(text);
                    proof {
                        assert(warnings@.map_values(|w: String| w@) =~= w0.map_values(
                            |w: String| w@,
                        ).push(text@));
                    }
                },
                None => {},
            }
        } else {
            match line {
                Some(l) => {
                    let ghost lv = (l.0@, l.1@);
                    fields.push(l);
                    proof {
                        assert(fields@.map_values(|f: (String, String)| (f.0@, f.1@)) =~= f0.map_values(
                            |f: (String, String)| (f.0@, f.1@),
                        ).push(lv));
                    }
                },
                None => {},
            }
        }
        k = k + 1;
    }
    proof {
        assert(entry_views(sorted@).take(sorted@.len() as int) =~= entry_views(sorted@));
    }
    StatusMarkdownV1 { fields, warnings }
}

} // verus!
