//! Field paths: `a.b[3][key].c` names nested struct fields, list elements
//! and map entries.
//!
//! Grammar: `path = segment ('.' segment | '[' token ']')*`, where a segment
//! is a non-empty run of characters other than `.`, `[` and `]`, and a token
//! is a non-empty run of characters other than `]`. A token of decimal digits
//! that fits in a `u32` is a list index; any other token is a map key.
use vstd::prelude::*;
use crate::error::SubstraitExprError;

verus! {

/// One step of a parsed path.
#[derive(Debug, Clone, PartialEq, Eq)]
pub enum NamedRefElement {
    /// A struct field, by name.
    Name(String),
    /// A list element, by position.
    ListIndex(u32),
    /// A map entry, by key.
    MapLookup(String),
}

/// A path step, as the contracts see it.
pub enum ElementV {
    Name(Seq<char>),
    ListIndex(u32),
    MapLookup(Seq<char>),
}

impl NamedRefElement {
    pub open spec fn view(&self) -> ElementV {
        match self {
            NamedRefElement::Name(s) => ElementV::Name(s@),
            NamedRefElement::ListIndex(i) => ElementV::ListIndex(*i),
            NamedRefElement::MapLookup(s) => ElementV::MapLookup(s@),
        }
    }
}

pub open spec fn elements_view(es: Seq<NamedRefElement>) -> Seq<ElementV> {
    es.map_values(|e: NamedRefElement| e@)
}

/// Where the parser stands between two characters.
#[derive(Debug, Clone, Copy, PartialEq, Eq, Structural)]
pub enum ParseState {
    /// A segment must come next: at the start, or after a `.`.
    ExpectName,
    /// Inside a segment.
    InName,
    /// Inside brackets.
    InBracket,
    /// Just after a `]`.
    AfterBracket,
}

pub open spec fn is_digit(c: char) -> bool {
    '0' <= c && c <= '9'
}

pub open spec fn all_digits(s: Seq<char>) -> bool {
    forall|i: int| 0 <= i < s.len() ==> is_digit(#[trigger] s[i])
}

/// The number that the decimal digits `s` stand for.
pub open spec fn digits_value(s: Seq<char>) -> nat
    decreases s.len(),
{
    if s.len() == 0 {
        0
    } else {
        digits_value(s.drop_last()) * 10 + ((s.last() as nat) - ('0' as nat)) as nat
    }
}

/// The step that the bracketed token `t` stands for.
pub open spec fn token_element(t: Seq<char>) -> ElementV {
    if t.len() > 0 && all_digits(t) && digits_value(t) <= u32::MAX {
        ElementV::ListIndex(digits_value(t) as u32)
    } else {
        ElementV::MapLookup(t)
    }
}

/// The parser's state after `c`, given its state before: the machine state,
/// the text of the pending segment or token, and the steps parsed so far.
/// `None` when `c` cannot stand there.
pub open spec fn step(st: ParseState, part: Seq<char>, out: Seq<ElementV>, c: char) -> Option<
    (ParseState, Seq<char>, Seq<ElementV>),
> {
    match st {
        ParseState::ExpectName => if c == '.' || c == '[' || c == ']' {
            None
        } else {
            Some((ParseState::InName, seq![c], out))
        },
        ParseState::InName => if c == '.' {
            Some((ParseState::ExpectName, seq![], out.push(ElementV::Name(part))))
        } else if c == '[' {
            Some((ParseState::InBracket, seq![], out.push(ElementV::Name(part))))
        } else if c == ']' {
            None
        } else {
            Some((ParseState::InName, part.push(c), out))
        },
        ParseState::InBracket => if c == ']' {
            if part.len() == 0 {
                None
            } else {
                Some((ParseState::AfterBracket, seq![], out.push(token_element(part))))
            }
        } else {
            Some((ParseState::InBracket, part.push(c), out))
        },
        ParseState::AfterBracket => if c == '.' {
            Some((ParseState::ExpectName, seq![], out))
        } else if c == '[' {
            Some((ParseState::InBracket, seq![], out))
        } else {
            None
        },
    }
}

/// The parser's state after reading all of `s`.
pub open spec fn run(s: Seq<char>) -> Option<(ParseState, Seq<char>, Seq<ElementV>)>
    decreases s.len(),
{
    if s.len() == 0 {
        Some((ParseState::ExpectName, seq![], seq![]))
    } else {
        match run(s.drop_last()) {
            None => None,
            Some((st, part, out)) => step(st, part, out, s.last()),
        }
    }
}

/// The steps of a path, once the input has ended in state `st`.
pub open spec fn finish(st: ParseState, part: Seq<char>, out: Seq<ElementV>) -> Option<Seq<ElementV>> {
    match st {
        ParseState::ExpectName => None,
        ParseState::InName => Some(out.push(ElementV::Name(part))),
        ParseState::InBracket => None,
        ParseState::AfterBracket => Some(out),
    }
}

/// The steps that the path `s` stands for, or `None` when `s` is not a path.
pub open spec fn parse_path_spec(s: Seq<char>) -> Option<Seq<ElementV>> {
    match run(s) {
        None => None,
        Some((st, part, out)) => finish(st, part, out),
    }
}

proof fn lemma_digits_value_grows(s: Seq<char>, i: int)
    requires
        0 <= i <= s.len(),
        all_digits(s),
    ensures
        digits_value(s.take(i)) <= digits_value(s),
    decreases s.len() - i,
{
    if i < s.len() {
        assert(s.take(i + 1).drop_last() =~= s.take(i));
        assert(is_digit(s[i]));
        lemma_digits_value_grows(s, i + 1);
    } else {
        assert(s.take(i) =~= s);
    }
}

proof fn lemma_run_stays_none(s: Seq<char>, k: int)
    requires
        0 <= k <= s.len(),
        run(s.take(k)) is None,
    ensures
        parse_path_spec(s) is None,
    decreases s.len() - k,
{
    if k < s.len() {
        assert(s.take(k + 1).drop_last() =~= s.take(k));
        lemma_run_stays_none(s, k + 1);
    } else {
        assert(s.take(k) =~= s);
    }
}

/// The list index that the token `t` stands for, if it is one.
fn parse_index(t: &str) -> (r: Option<u32>)
    ensures
        r matches Some(n) ==> token_element(t@) == ElementV::ListIndex(n),
        r is None ==> token_element(t@) == ElementV::MapLookup(t@),
{
    let n = t.unicode_len();
    if n == 0 {
        return None;
    }
    let mut value: u64 = 0;
    let mut i: usize = 0;
    assert(t@.take(0) =~= seq![]);
    while i < n
        invariant
            n == t@.len(),
            0 <= i <= n,
            all_digits(t@.take(i as int)),
            value as nat == digits_value(t@.take(i as int)),
            value <= u32::MAX,
        decreases n - i,
    {
        let c = t.get_char(i);
        if !('0' <= c && c <= '9') {
            assert(!all_digits(t@));
            return None;
        }
        let d = (c as u32 - '0' as u32) as u64;
        assert(t@.take(i + 1).drop_last() =~= t@.take(i as int));
        assert(all_digits(t@.take(i + 1)));
        value = value * 10 + d;
        if value > 4294967295 {
            proof {
                if all_digits(t@) {
                    lemma_digits_value_grows(t@, i + 1);
                }
            }
            return None;
        }
        i = i + 1;
    }
    assert(t@.take(n as int) =~= t@);
    Some(value as u32)
}

/// Parses path text into its steps.
pub struct NamedRefIter<'a> {
    val: &'a str,
}

impl<'a> NamedRefIter<'a> {
    pub closed spec fn text(&self) -> Seq<char> {
        self.val@
    }

    pub fn new(val: &'a str) -> (r: Self)
        ensures
            r.text() == val@,
    {
        NamedRefIter { val }
    }

    /// The error for text that is not a path.
    pub fn invalid(&self) -> (r: SubstraitExprError)
        ensures
            r.is_invalid_input(),
    {
        let mut message = String::from_str("Invalid field reference: ");
        message.append(self.val);
        SubstraitExprError::InvalidInput(message)
    }

    /// The steps of the path, or an `InvalidInput` error when the text does
    /// not follow the grammar.
    pub fn parse(&self) -> (r: Result<Vec<NamedRefElement>, SubstraitExprError>)
        ensures
            r matches Ok(es) ==> parse_path_spec(self.text()) == Some(elements_view(es@)),
            r is Err ==> parse_path_spec(self.text()) is None,
            r matches Err(e) ==> e.is_invalid_input(),
    {
        let s = self.val;
        let n = s.unicode_len();
        let mut st = ParseState::ExpectName;
        let mut part_start: usize = 0;
        let mut out: Vec<NamedRefElement> = Vec::new();
        let mut i: usize = 0;
        assert(s@.take(0) =~= seq![]);
        assert(elements_view(out@) =~= seq![]);
        while i < n
            invariant
                s@ == self.text(),
                n == s@.len(),
                0 <= part_start <= i <= n,
                run(s@.take(i as int)) == Some((st, s@.subrange(part_start as int, i as int), elements_view(out@))),
            decreases n - i,
        {
            let c = s.get_char(i);
            let ghost part = s@.subrange(part_start as int, i as int);
            let ghost before = elements_view(out@);
            proof {
                assert(s@.take(i + 1).drop_last() =~= s@.take(i as int));
                assert(s@.take(i + 1).last() == c);
            }
            match st {
                ParseState::ExpectName => {
                    if c == '.' || c == '[' || c == ']' {
                        proof {
                            lemma_run_stays_none(s@, i + 1);
                        }
                        return Err(self.invalid());
                    }
                    st = ParseState::InName;
                    part_start = i;
                    assert(s@.subrange(i as int, i + 1) =~= seq![c]);
                },
                ParseState::InName => {
                    if c == '.' || c == '[' {
                        let name = s.substring_char(part_start, i).to_owned();
                        out.push(NamedRefElement::Name(name));
                        assert(elements_view(out@) =~= before.push(ElementV::Name(part)));
                        st = if c == '.' {
                            ParseState::ExpectName
                        } else {
                            ParseState::InBracket
                        };
                        part_start = i + 1;
                    } else if c == ']' {
                        proof {
                            lemma_run_stays_none(s@, i + 1);
                        }
                        return Err(self.invalid());
                    } else {
                        assert(s@.subrange(part_start as int, i + 1) =~= part.push(c));
                    }
                },
                ParseState::InBracket => {
                    if c == ']' {
                        if part_start == i {
                            proof {
                            lemma_run_stays_none(s@, i + 1);
                        }
                        return Err(self.invalid());
                        }
                        let token = s.substring_char(part_start, i);
                        let element = match parse_index(token) {
                            Some(idx) => NamedRefElement::ListIndex(idx),
                            None => NamedRefElement::MapLookup(token.to_owned()),
                        };
                        out.push(element);
                        assert(elements_view(out@) =~= before.push(token_element(part)));
                        st = ParseState::AfterBracket;
                        part_start = i + 1;
                    } else {
                        assert(s@.subrange(part_start as int, i + 1) =~= part.push(c));
                    }
                },
                ParseState::AfterBracket => {
                    if c == '.' {
                        st = ParseState::ExpectName;
                    } else if c == '[' {
                        st = ParseState::InBracket;
                    } else {
                        proof {
                            lemma_run_stays_none(s@, i + 1);
                        }
                        return Err(self.invalid());
                    }
                    part_start = i + 1;
                },
            }
            proof {
                assert(s@.subrange(part_start as int, i + 1) =~= s@.subrange(part_start as int, (i + 1) as int));
                if part_start == i + 1 {
                    assert(s@.subrange(part_start as int, i + 1) =~= seq![]);
                }
            }
            i = i + 1;
        }
        assert(s@.take(n as int) =~= s@);
        match st {
            ParseState::ExpectName => Err(self.invalid()),
            ParseState::InName => {
                let ghost before = elements_view(out@);
                let name = s.substring_char(part_start, n).to_owned();
                out.push(NamedRefElement::Name(name));
                assert(elements_view(out@) =~= before.push(ElementV::Name(s@.subrange(part_start as int, n as int))));
                Ok(out)
            },
            ParseState::InBracket => Err(self.invalid()),
            ParseState::AfterBracket => Ok(out),
        }
    }
}

/// Parses a path: its steps, or an `InvalidInput` error when `text` is not
/// a path.
pub fn parse_path(text: &str) -> (r: Result<Vec<NamedRefElement>, SubstraitExprError>)
    ensures
        r matches Ok(es) ==> parse_path_spec(text@) == Some(elements_view(es@)),
        r is Err ==> parse_path_spec(text@) is None,
        r matches Err(e) ==> e.is_invalid_input(),
{
    NamedRefIter::new(text).parse()
}

proof fn lemma_run_after_bracket(s: Seq<char>)
    ensures
        run(s) matches Some((st, part, out)) ==> (st is AfterBracket ==> out.len() >= 1),
    decreases s.len(),
{
    if s.len() > 0 {
        lemma_run_after_bracket(s.drop_last());
    }
}

/// A path has at least one step.
pub proof fn lemma_parse_nonempty(s: Seq<char>)
    ensures
        parse_path_spec(s) matches Some(els) ==> els.len() >= 1,
{
    lemma_run_after_bracket(s);
}

} // verus!
