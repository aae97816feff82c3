use vstd::prelude::*;
use vstd::string::*;

verus! {

/// The character of a decimal digit.
pub open spec fn digit_char(d: int) -> char {
    if d == 0 { '0' }
    else if d == 1 { '1' }
    else if d == 2 { '2' }
    else if d == 3 { '3' }
    else if d == 4 { '4' }
    else if d == 5 { '5' }
    else if d == 6 { '6' }
    else if d == 7 { '7' }
    else if d == 8 { '8' }
    else { '9' }
}

/// Decimal text of a number, without sign or leading zeros.
pub open spec fn decimal(n: nat) -> Seq<char>
    decreases n,
{
    if n < 10 {
        seq![digit_char(n as int)]
    } else {
        decimal(n / 10).push(digit_char((n % 10) as int))
    }
}

fn digit_str(d: u128) -> (r: &'static str)
    requires
        d < 10,
    ensures
        r@ == seq![digit_char(d as int)],
{
    if d == 0 {
        proof { reveal_strlit("0"); }
        "0"
    } else if d == 1 {
        proof { reveal_strlit("1"); }
        "1"
    } else if d == 2 {
        proof { reveal_strlit("2"); }
        "2"
    } else if d == 3 {
        proof { reveal_strlit("3"); }
        "3"
    } else if d == 4 {
        proof { reveal_strlit("4"); }
        "4"
    } else if d == 5 {
        proof { reveal_strlit("5"); }
        "5"
    } else if d == 6 {
        proof { reveal_strlit("6"); }
        "6"
    } else if d == 7 {
        proof { reveal_strlit("7"); }
        "7"
    } else if d == 8 {
        proof { reveal_strlit("8"); }
        "8"
    } else {
        proof { reveal_strlit("9"); }
        "9"
    }
}

/// Appends the decimal text of `n`.
pub fn push_decimal(s: &mut String, n: u128)
    ensures
        final(s)@ == old(s)@ + decimal(n as nat),
    decreases n,
{
    if n >= 10 {
        push_decimal(s, n / 10);
    }
    s.append(digit_str(n % 10));
}

/// The decimal text of `n`.
pub fn decimal_string(n: u128) -> (r: String)
    ensures
        r@ == decimal(n as nat),
{
    let mut s = String::new();
    push_decimal(&mut s, n);
    assert(s@ == Seq::<char>::empty() + decimal(n as nat));
    s
}

/// `s` padded on the left with zeros to at least `width` characters.
pub open spec fn zero_pad(s: Seq<char>, width: nat) -> Seq<char> {
    if s.len() >= width {
        s
    } else {
        Seq::new((width - s.len()) as nat, |i: int| '0') + s
    }
}

/// Text of a block time given in nanoseconds: whole seconds, a dot, and the nine
/// digits of the fraction.
pub open spec fn timestamp_text(nanos: u64) -> Seq<char> {
    decimal((nanos / 1_000_000_000u64) as nat) + "."@ + zero_pad(
        decimal((nanos % 1_000_000_000u64) as nat),
        9,
    )
}

/// The text of a block time.
pub fn timestamp_string(nanos: u64) -> (r: String)
    ensures
        r@ == timestamp_text(nanos),
{
    let mut s = decimal_string((nanos / 1_000_000_000u64) as u128);
    s.append(".");
    let frac = decimal_string((nanos % 1_000_000_000u64) as u128);
    let len = frac.as_str().unicode_len();
    let ghost before = s@;
    if len < 9 {
        let mut k: usize = 0;
        while k < 9 - len
            invariant
                len < 9,
                k <= 9 - len,
                s@ == before + Seq::new(k as nat, |i: int| '0'),
            decreases 9 - len - k,
        {
            proof { reveal_strlit("0"); }
            s.append("0");
            assert(s@ == before + Seq::new((k + 1) as nat, |i: int| '0'));
            k = k + 1;
        }
    }
    let ghost padded = s@;
    s.append(frac.as_str());
    proof {
        let z = zero_pad(decimal((nanos % 1_000_000_000u64) as nat), 9);
        if len < 9 {
            assert(padded + frac@ == before + z);
        } else {
            assert(padded == before);
        }
    }
    s
}

/// The standard debug text of a string (quoted, with escapes).
pub uninterp spec fn debug_text(s: Seq<char>) -> Seq<char>;

/// Debug text of a string, by the standard formatter (`format!("{:?}", s)`, that is
/// `<String as Debug>::fmt`).  Claimed: the text depends on the string's characters
/// alone and is named `debug_text`; its quoting and escaping rules are not stated.
#[verifier::external_body]
fn debug_string(s: &String) -> (r: String)
    ensures
        r@ == debug_text(s@),
{
    format!("{:?}", s)
}

/// Debug texts joined as a list: `[a, b, c]`.
pub open spec fn list_text(items: Seq<Seq<char>>) -> Seq<char> {
    "["@ + joined(items) + "]"@
}

/// Texts joined by `, `.
pub open spec fn joined(items: Seq<Seq<char>>) -> Seq<char>
    decreases items.len(),
{
    if items.len() == 0 {
        Seq::empty()
    } else if items.len() == 1 {
        items[0]
    } else {
        joined(items.drop_last()) + ", "@ + items.last()
    }
}

/// Debug texts of each string of a list.
pub open spec fn debug_texts(items: Seq<String>) -> Seq<Seq<char>> {
    Seq::new(items.len(), |i: int| debug_text(items[i]@))
}

/// The text of the error for an output token that the escrow does not support.
pub open spec fn unsupported_output_text(token_text: Seq<char>, listed: Seq<Seq<char>>) -> Seq<char> {
    "Unsupported tokens used. Supplied token: "@ + token_text + ", Supported tokens: "@
        + list_text(listed)
}

/// Builds the error text for an unsupported output token from the debug text of the
/// token and the debug texts of the supported tokens.
pub fn unsupported_output_message(token_text: &String, listed: &Vec<String>) -> (r: String)
    ensures
        r@ == unsupported_output_text(token_text@, listed@.map_values(|s: String| s@)),
{
    let ghost texts = listed@.map_values(|s: String| s@);
    let mut m = String::from_str("Unsupported tokens used. Supplied token: ");
    m.append(token_text.as_str());
    m.append(", Supported tokens: ");
    m.append("[");
    let ghost open_at = m@;
    let mut i: usize = 0;
    while i < listed.len()
        invariant
            i <= listed.len(),
            texts == listed@.map_values(|s: String| s@),
            m@ == open_at + joined(texts.take(i as int)),
        decreases listed.len() - i,
    {
        if i > 0 {
            m.append(", ");
        }
        m.append(listed[i].as_str());
        assert(texts.take(i + 1).drop_last() == texts.take(i as int));
        assert(texts.take(i + 1).last() == listed@[i as int]@);
        i = i + 1;
    }
    assert(texts.take(listed.len() as int) == texts);
    m.append("]");
    m
}

/// The error text for an unsupported output token, rendered with the standard debug
/// formatter.
pub fn unsupported_output_error(token: &String, supported: &Vec<String>) -> (r: String)
    ensures
        r@ == unsupported_output_text(debug_text(token@), debug_texts(supported@)),
{
    let token_text = debug_string(token);
    let mut listed: Vec<String> = Vec::new();
    let mut i: usize = 0;
    while i < supported.len()
        invariant
            i <= supported.len(),
            listed@.len() == i,
            forall|j: int| 0 <= j < i ==> #[trigger] listed@[j]@ == debug_text(supported@[j]@),
        decreases supported.len() - i,
    {
        listed.push(debug_string(&supported[i]));
        i = i + 1;
    }
    let r = unsupported_output_message(&token_text, &listed);
    assert(listed@.map_values(|s: String| s@) == debug_texts(supported@));
    r
}

/// Error text for a native payment below the required amount.
pub open spec fn native_short_text(required: u128, sent: u128) -> Seq<char> {
    "Insufficient native token sent. Required: "@ + decimal(required as nat) + ", Sent: "@
        + decimal(sent as nat)
}

/// Error text for a token balance below the required amount.
pub open spec fn balance_short_text(required: u128, balance: u128) -> Seq<char> {
    "Insufficient CW20 token balance. Required: "@ + decimal(required as nat) + ", Balance: "@
        + decimal(balance as nat)
}

/// Error text for an allowance below the required amount.
pub open spec fn allowance_short_text(required: u128, allowance: u128) -> Seq<char> {
    "Insufficient CW20 token allowance. Required: "@ + decimal(required as nat)
        + ", Allowance: "@ + decimal(allowance as nat)
}

/// `prefix`, a number, `middle`, a number.
pub fn two_amounts_text(prefix: &str, first: u128, middle: &str, second: u128) -> (r: String)
    ensures
        r@ == prefix@ + decimal(first as nat) + middle@ + decimal(second as nat),
{
    let mut m = String::from_str(prefix);
    push_decimal(&mut m, first);
    m.append(middle);
    push_decimal(&mut m, second);
    m
}

} // verus!
