//! Compact JSON text, assembled from fragments.
//!
//! A message is first laid out as a list of fragments: runs of text that are
//! emitted as they stand, and string values that still have to be written as
//! JSON string literals. Rendering quotes the string values and joins the
//! pieces.
use vstd::prelude::*;

verus! {

/// The JSON string literal that `serde_json::to_string` returns for a string
/// made of the characters `s`.
pub uninterp spec fn json_string(s: Seq<char>) -> Seq<char>;

/// The error type of `serde_json`, carried through without looking inside.
#[verifier::external_type_specification]
#[verifier::external_body]
pub struct ExJsonError(serde_json::Error);

/// Calls `serde_json::to_string` on a string slice. The call succeeds on
/// every string: it writes into a vector, and the only error it passes on for
/// a string is one of the writer. The literal is taken to be a function of
/// the characters of `s` alone; nothing is claimed about what it looks like.
#[verifier::external_body]
fn quote(s: &str) -> (r: Result<String, serde_json::Error>)
    ensures
        r is Ok,
        match r {
            Ok(t) => t@ == json_string(s@),
            Err(_) => false,
        },
{
    serde_json::to_string(s)
}

/// Whether two strings have the same characters.
pub fn same_text(a: &str, b: &str) -> (r: bool)
    ensures
        r == (a@ == b@),
{
    a.to_owned() == b.to_owned()
}

/// The error of the rendering functions: `serde_json` reported an error for
/// a string value. No input is known to cause it.
#[derive(Debug, Clone, Copy, PartialEq, Eq)]
pub struct EncodeError {
    /// Index of the fragment that could not be written.
    pub fragment: usize,
}

/// One run of a document.
#[derive(Debug, PartialEq, Eq)]
pub enum Fragment {
    /// Text that is emitted as it stands.
    Raw(String),
    /// A string value, emitted as a JSON string literal.
    Text(String),
}

/// The characters of a fragment.
pub enum FragmentModel {
    Raw(Seq<char>),
    Text(Seq<char>),
}

impl View for Fragment {
    type V = FragmentModel;

    open spec fn view(&self) -> FragmentModel {
        match self {
            Fragment::Raw(s) => FragmentModel::Raw(s@),
            Fragment::Text(s) => FragmentModel::Text(s@),
        }
    }
}

/// The models of a list of fragments, in order.
pub open spec fn models(fragments: Seq<Fragment>) -> Seq<FragmentModel> {
    fragments.map_values(|f: Fragment| f@)
}

/// The text that one fragment contributes.
pub open spec fn fragment_text(f: FragmentModel) -> Seq<char> {
    match f {
        FragmentModel::Raw(s) => s,
        FragmentModel::Text(s) => json_string(s),
    }
}

/// The pieces of text laid end to end.
pub open spec fn joined(parts: Seq<Seq<char>>) -> Seq<char>
    decreases parts.len(),
{
    if parts.len() == 0 {
        Seq::empty()
    } else {
        joined(parts.drop_last()) + parts.last()
    }
}

/// The text of each fragment, in order.
pub open spec fn fragment_texts(fragments: Seq<FragmentModel>) -> Seq<Seq<char>> {
    fragments.map_values(|f: FragmentModel| fragment_text(f))
}

/// The characters of each string of a list, in order.
pub open spec fn texts(parts: Seq<String>) -> Seq<Seq<char>> {
    parts.map_values(|p: String| p@)
}

/// The document that a list of fragments stands for: the texts of its
/// fragments joined.
pub open spec fn rendered(fragments: Seq<FragmentModel>) -> Seq<char> {
    joined(fragment_texts(fragments))
}

/// The fragment for a run of text that is emitted as it stands.
pub open spec fn raw(s: &str) -> FragmentModel {
    FragmentModel::Raw(s@)
}

/// The character for a decimal digit.
pub open spec fn digit(d: nat) -> char
    recommends
        d < 10,
{
    if d == 0 {
        '0'
    } else if d == 1 {
        '1'
    } else if d == 2 {
        '2'
    } else if d == 3 {
        '3'
    } else if d == 4 {
        '4'
    } else if d == 5 {
        '5'
    } else if d == 6 {
        '6'
    } else if d == 7 {
        '7'
    } else if d == 8 {
        '8'
    } else {
        '9'
    }
}

/// The decimal numeral of `n`, without leading zeros.
pub open spec fn decimal(n: nat) -> Seq<char>
    decreases n,
{
    if n < 10 {
        seq![digit(n)]
    } else {
        decimal(n / 10).push(digit(n % 10))
    }
}

/// The one-character numeral of a digit.
fn digit_str(d: u8) -> (r: &'static str)
    requires
        d < 10,
    ensures
        r@ == seq![digit(d as nat)],
{
    proof {
        reveal_strlit("0");
        reveal_strlit("1");
        reveal_strlit("2");
        reveal_strlit("3");
        reveal_strlit("4");
        reveal_strlit("5");
        reveal_strlit("6");
        reveal_strlit("7");
        reveal_strlit("8");
        reveal_strlit("9");
    }
    let r = match d {
        0 => "0",
        1 => "1",
        2 => "2",
        3 => "3",
        4 => "4",
        5 => "5",
        6 => "6",
        7 => "7",
        8 => "8",
        _ => "9",
    };
    assert(r@ =~= seq![digit(d as nat)]);
    r
}

/// Appends the decimal numeral of `n` to `out`.
pub fn append_decimal(out: &mut String, n: u64)
    ensures
        final(out)@ == old(out)@ + decimal(n as nat),
    decreases n,
{
    if n >= 10 {
        append_decimal(out, n / 10);
    }
    out.append(digit_str((n % 10) as u8));
    assert(out@ =~= old(out)@ + decimal(n as nat));
}

/// The decimal numeral of `n`.
pub fn decimal_string(n: u64) -> (r: String)
    ensures
        r@ == decimal(n as nat),
{
    let mut out = String::new();
    append_decimal(&mut out, n);
    assert(out@ =~= decimal(n as nat));
    out
}

/// Appends a fragment of text that is emitted as it stands.
pub fn push_raw(out: &mut Vec<Fragment>, s: &str)
    ensures
        models(final(out)@) == models(old(out)@).push(raw(s)),
{
    out.push(Fragment::Raw(s.to_owned()));
    assert(models(out@) =~= models(old(out)@).push(FragmentModel::Raw(s@)));
}

/// Appends a string value.
pub fn push_text(out: &mut Vec<Fragment>, s: &str)
    ensures
        models(final(out)@) == models(old(out)@).push(FragmentModel::Text(s@)),
{
    out.push(Fragment::Text(s.to_owned()));
    assert(models(out@) =~= models(old(out)@).push(FragmentModel::Text(s@)));
}

/// Appends a number as its decimal numeral.
pub fn push_number(out: &mut Vec<Fragment>, n: u64)
    ensures
        models(final(out)@) == models(old(out)@).push(FragmentModel::Raw(decimal(n as nat))),
{
    out.push(Fragment::Raw(decimal_string(n)));
    assert(models(out@) =~= models(old(out)@).push(FragmentModel::Raw(decimal(n as nat))));
}

/// The characters of an optional string.
pub open spec fn optional_chars(s: Option<String>) -> Option<Seq<char>> {
    match s {
        Some(t) => Some(t@),
        None => None,
    }
}

/// The fragment of an optional string value: the value, or `null`.
pub open spec fn optional_text(s: Option<Seq<char>>) -> FragmentModel {
    match s {
        Some(t) => FragmentModel::Text(t),
        None => raw("null"),
    }
}

/// Appends an optional string value: the value, or `null` where there is none.
pub fn push_optional_text(out: &mut Vec<Fragment>, s: &Option<String>)
    ensures
        models(final(out)@) == models(old(out)@).push(optional_text(optional_chars(*s))),
{
    match s {
        Some(t) => push_text(out, t.as_str()),
        None => push_raw(out, "null"),
    }
}

/// Writes each fragment as text: a raw fragment as it stands, a string value
/// as the literal that `serde_json` gives for it.
pub fn quote_all(fragments: &Vec<Fragment>) -> (r: Result<Vec<String>, EncodeError>)
    ensures
        r matches Ok(parts) && texts(parts@) == fragment_texts(models(fragments@)),
{
    let mut parts: Vec<String> = Vec::new();
    let mut i: usize = 0;
    while i < fragments.len()
        invariant
            i <= fragments.len(),
            parts.len() == i,
            forall|j: int| 0 <= j < i ==> parts[j]@ == #[trigger] fragment_text(fragments[j]@),
        decreases fragments.len() - i,
    {
        match &fragments[i] {
            Fragment::Raw(s) => {
                parts.push(s.clone());
            },
            Fragment::Text(s) => {
                match quote(s.as_str()) {
                    Ok(t) => {
                        parts.push(t);
                    },
                    Err(_) => {
                        return Err(EncodeError { fragment: i });
                    },
                }
            },
        }
        i = i + 1;
    }
    proof {
        let ms = models(fragments@);
        assert forall|j: int| 0 <= j < ms.len() implies texts(parts@)[j] == fragment_texts(ms)[j] by {
            assert(parts[j]@ == fragment_text(fragments[j]@));
        }
        assert(texts(parts@) =~= fragment_texts(ms));
    }
    Ok(parts)
}

/// Joins pieces of text.
pub fn join_parts(parts: &Vec<String>) -> (r: String)
    ensures
        r@ == joined(texts(parts@)),
{
    let ghost all = texts(parts@);
    let mut out = String::new();
    let mut i: usize = 0;
    while i < parts.len()
        invariant
            i <= parts.len(),
            all == texts(parts@),
            out@ == joined(all.take(i as int)),
        decreases parts.len() - i,
    {
        out.append(parts[i].as_str());
        proof {
            assert(all.take(i + 1).drop_last() =~= all.take(i as int));
            assert(all.take(i + 1).last() == parts[i as int]@);
        }
        i = i + 1;
    }
    assert(all.take(i as int) =~= all);
    out
}

/// Renders a list of fragments as one document.
pub fn render(fragments: &Vec<Fragment>) -> (r: Result<String, EncodeError>)
    ensures
        r matches Ok(t) && t@ == rendered(models(fragments@)),
{
    match quote_all(fragments) {
        Ok(parts) => Ok(join_parts(&parts)),
        Err(e) => Err(e),
    }
}

} // verus!
