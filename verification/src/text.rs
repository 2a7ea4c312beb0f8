//! Text of the tile: the display label, the level tag and the
//! manufacturer tag.

use vstd::prelude::*;
use vstd::string::StringExecFns;
use crate::model::BalancePart;

verus! {

/// The character that writes one decimal digit.
pub open spec fn digit_char(d: nat) -> char {
    if d == 0 {
        '0'
    } else if d == 1 {
        '1'
    } else if d == 2 {
        '2'
    } else if d == 3 {
        '3'
    } else if d == 4 {
        '4'
    } else if d == 5 {
        '5'
    } else if d == 6 {
        '6'
    } else if d == 7 {
        '7'
    } else if d == 8 {
        '8'
    } else {
        '9'
    }
}

/// The characters of `n` written in decimal, most significant digit first,
/// without leading zeros (a lone zero for `n == 0`).
pub open spec fn decimal_of(n: nat) -> Seq<char>
    decreases n,
{
    if n < 10 {
        seq![digit_char(n)]
    } else {
        decimal_of(n / 10) + seq![digit_char(n % 10)]
    }
}

/// Appends the decimal digits of `n` to `s`.
fn push_decimal(s: &mut String, n: usize)
    ensures
        final(s)@ == old(s)@ + decimal_of(n as nat),
    decreases n,
{
    if n >= 10 {
        push_decimal(s, n / 10);
    }
    let d: usize = n % 10;
    let ds: &str = if d == 0 {
        "0"
    } else if d == 1 {
        "1"
    } else if d == 2 {
        "2"
    } else if d == 3 {
        "3"
    } else if d == 4 {
        "4"
    } else if d == 5 {
        "5"
    } else if d == 6 {
        "6"
    } else if d == 7 {
        "7"
    } else if d == 8 {
        "8"
    } else {
        "9"
    };
    proof {
        reveal_strlit("0");
        reveal_strlit("1");
        reveal_strlit("2");
        reveal_strlit("3");
        reveal_strlit("4");
        reveal_strlit("5");
        reveal_strlit("6");
        reveal_strlit("7");
        reveal_strlit("8");
        reveal_strlit("9");
        assert(ds@ =~= seq![digit_char((n % 10) as nat)]);
    }
    s.append(ds);
    proof {
        assert(s@ =~= old(s)@ + decimal_of(n as nat));
    }
}

/// Text of the level tag: the word "Level", a space, and the level in
/// decimal.
pub open spec fn level_text_spec(level: nat) -> Seq<char> {
    "Level "@ + decimal_of(level)
}

/// Renders the level tag's text, "Level {n}".
pub fn level_tag_text(level: usize) -> (r: String)
    ensures
        r@ == level_text_spec(level as nat),
{
    let mut s = String::from_str("Level ");
    push_decimal(&mut s, level);
    s
}

/// The tile's bold label: the explicit name when one is present, else the
/// short identifier when one is present, else the identifier.
pub open spec fn label_spec(bp: BalancePart) -> Seq<char> {
    if bp.name is Some {
        bp.name->0@
    } else if bp.short_ident is Some {
        bp.short_ident->0@
    } else {
        bp.ident@
    }
}

/// Resolves the display label of an item from its base-template record.
pub fn resolve_label(bp: &BalancePart) -> (r: String)
    ensures
        r@ == label_spec(*bp),
{
    match &bp.name {
        Some(name) => name.clone(),
        None => match &bp.short_ident {
            Some(short) => short.clone(),
            None => bp.ident.clone(),
        },
    }
}

/// If an explicit name is present, the label is that name verbatim,
/// whatever the other identifier fields hold.
pub proof fn lemma_name_wins(bp: BalancePart)
    requires
        bp.name is Some,
    ensures
        label_spec(bp) == bp.name->0@,
{
}

/// What the title-case conversion of the brand library returns on the
/// given characters.
pub uninterp spec fn title_case_of(s: Seq<char>) -> Seq<char>;

/// Relies on heck's `to_title_case`: it capitalises each word of the
/// input, and its result depends on the input characters alone. An input
/// without words comes back empty.
#[verifier::external_body]
fn to_title_case(s: &str) -> (r: String)
    ensures
        r@ == title_case_of(s@),
        s@.len() == 0 ==> r@.len() == 0,
{
    heck::ToTitleCase::to_title_case(s)
}

/// Text of the manufacturer tag: the brand's short identifier title-cased,
/// except the two verbatim spellings "CoV" and "Class Mod", which pass
/// through unchanged.
pub open spec fn manufacturer_text_spec(s: Seq<char>) -> Seq<char> {
    if s == "CoV"@ || s == "Class Mod"@ {
        s
    } else {
        title_case_of(s)
    }
}

/// Renders the manufacturer tag's text from the brand's short identifier.
pub fn manufacturer_tag_text(short: &String) -> (r: String)
    ensures
        r@ == manufacturer_text_spec(short@),
{
    let cov = String::from_str("CoV");
    let class_mod = String::from_str("Class Mod");
    if short.eq(&cov) || short.eq(&class_mod) {
        short.clone()
    } else {
        to_title_case(short.as_str())
    }
}

/// The two verbatim manufacturer spellings pass through unchanged; every
/// other value is title-cased.
pub proof fn lemma_manufacturer_casing(s: Seq<char>)
    ensures
        s == "CoV"@ || s == "Class Mod"@ ==> manufacturer_text_spec(s) == s,
        s != "CoV"@ && s != "Class Mod"@ ==> manufacturer_text_spec(s) == title_case_of(s),
{
}

} // verus!
