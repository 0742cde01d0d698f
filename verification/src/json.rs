use vstd::prelude::*;
use vstd::string::StrSliceExecFns;
use vstd::string::StringExecFns;
use crate::ids::hex_digit;
use crate::ids::uuid_hyphenated;
use crate::ids::uuid_text;
use crate::store::Subscription;
use crate::store::SubscriptionData;
use crate::store::rows_view;
use crate::text::push_char;
use crate::time::timestamp_display;
use crate::time::timestamp_text;

verus! {

/// How one character is written inside a JSON string: quote and backslash
/// get a leading backslash, the named control characters their short
/// escapes, the other control characters a four-digit escape, and every
/// other character stands as itself.
pub open spec fn escaped_char(c: char) -> Seq<char> {
    if c == '"' {
        seq!['\\', '"']
    } else if c == '\\' {
        seq!['\\', '\\']
    } else if c == '\n' {
        seq!['\\', 'n']
    } else if c == '\r' {
        seq!['\\', 'r']
    } else if c == '\t' {
        seq!['\\', 't']
    } else if (c as u32) < 0x20 {
        seq!['\\', 'u', '0', '0', hex_digit((c as u32 / 16) as u8), hex_digit((c as u32 % 16) as u8)]
    } else {
        seq![c]
    }
}

/// A text with each character written in its JSON form.
pub open spec fn escaped(s: Seq<char>) -> Seq<char>
    decreases s.len(),
{
    if s.len() == 0 {
        Seq::<char>::empty()
    } else {
        escaped(s.drop_last()) + escaped_char(s.last())
    }
}

/// A JSON string: the escaped text between double quotes.
pub open spec fn quoted(s: Seq<char>) -> Seq<char> {
    seq!['"'] + escaped(s) + seq!['"']
}

/// The JSON object one row is listed as.
pub open spec fn object_text(r: SubscriptionData) -> Seq<char> {
    "{\"id\":"@ + quoted(uuid_text(r.id)) + ",\"email\":"@ + quoted(r.email) + ",\"name\":"@
        + quoted(r.name) + ",\"subscribed_at\":"@ + quoted(timestamp_text(r.subscribed_at))
        + "}"@
}

/// The objects of the rows, in order, separated by commas.
pub open spec fn rows_text(rows: Seq<SubscriptionData>) -> Seq<char>
    decreases rows.len(),
{
    if rows.len() == 0 {
        Seq::<char>::empty()
    } else if rows.len() == 1 {
        object_text(rows[0])
    } else {
        rows_text(rows.drop_last()) + seq![','] + object_text(rows.last())
    }
}

/// The JSON array the whole table is listed as.
pub open spec fn json_array(rows: Seq<SubscriptionData>) -> Seq<char> {
    seq!['['] + rows_text(rows) + seq![']']
}

/// The lowercase hexadecimal digit of a value below 16.
fn hex_digit_char(v: u8) -> (c: char)
    requires
        v < 16,
    ensures
        c == hex_digit(v),
{
    if v == 0 {
        '0'
    } else if v == 1 {
        '1'
    } else if v == 2 {
        '2'
    } else if v == 3 {
        '3'
    } else if v == 4 {
        '4'
    } else if v == 5 {
        '5'
    } else if v == 6 {
        '6'
    } else if v == 7 {
        '7'
    } else if v == 8 {
        '8'
    } else if v == 9 {
        '9'
    } else if v == 10 {
        'a'
    } else if v == 11 {
        'b'
    } else if v == 12 {
        'c'
    } else if v == 13 {
        'd'
    } else if v == 14 {
        'e'
    } else {
        'f'
    }
}

/// Appends the text with every character in its JSON form.
fn escape_into(s: &str, out: &mut String)
    ensures
        final(out)@ == old(out)@ + escaped(s@),
{
    let n = s.unicode_len();
    let mut i: usize = 0;
    while i < n
        invariant
            i <= n,
            n == s@.len(),
            out@ == old(out)@ + escaped(s@.take(i as int)),
        decreases n - i,
    {
        let c = s.get_char(i);
        proof {
            assert(s@.take(i + 1).drop_last() =~= s@.take(i as int));
            assert(s@.take(i + 1).last() == s@[i as int]);
        }
        if c == '"' {
            push_char(out, '\\');
            push_char(out, '"');
        } else if c == '\\' {
            push_char(out, '\\');
            push_char(out, '\\');
        } else if c == '\n' {
            push_char(out, '\\');
            push_char(out, 'n');
        } else if c == '\r' {
            push_char(out, '\\');
            push_char(out, 'r');
        } else if c == '\t' {
            push_char(out, '\\');
            push_char(out, 't');
        } else if (c as u32) < 0x20 {
            push_char(out, '\\');
            push_char(out, 'u');
            push_char(out, '0');
            push_char(out, '0');
            let v = c as u32;
            push_char(out, hex_digit_char((v / 16) as u8));
            push_char(out, hex_digit_char((v % 16) as u8));
        } else {
            push_char(out, c);
        }
        proof {
            assert(out@ =~= old(out)@ + escaped(s@.take(i + 1)));
        }
        i += 1;
    }
    proof {
        assert(s@.take(n as int) =~= s@);
    }
}

/// Appends the text as a JSON string.
fn quote_into(s: &str, out: &mut String)
    ensures
        final(out)@ == old(out)@ + quoted(s@),
{
    push_char(out, '"');
    escape_into(s, out);
    push_char(out, '"');
    proof {
        assert(out@ =~= old(out)@ + quoted(s@));
    }
}

/// Appends the JSON object of one row.
fn object_into(s: &Subscription, out: &mut String)
    ensures
        final(out)@ == old(out)@ + object_text(s@),
{
    out.append("{\"id\":");
    let id_text = uuid_hyphenated(s.id);
    quote_into(id_text.as_str(), out);
    out.append(",\"email\":");
    quote_into(s.email.as_str(), out);
    out.append(",\"name\":");
    quote_into(s.name.as_str(), out);
    out.append(",\"subscribed_at\":");
    let ts_text = timestamp_display(s.subscribed_at);
    quote_into(ts_text.as_str(), out);
    out.append("}");
    proof {
        assert(out@ =~= old(out)@ + object_text(s@));
    }
}

/// The JSON array of the rows, in storage order.
pub fn render_subscriptions(rows: &Vec<Subscription>) -> (r: String)
    ensures
        r@ == json_array(rows_view(rows@)),
{
    let mut out = String::new();
    push_char(&mut out, '[');
    let n = rows.len();
    let mut i: usize = 0;
    while i < n
        invariant
            i <= n,
            n == rows@.len(),
            out@ == seq!['['] + rows_text(rows_view(rows@.take(i as int))),
        decreases n - i,
    {
        if i > 0 {
            push_char(&mut out, ',');
        }
        object_into(&rows[i], &mut out);
        proof {
            assert(rows_view(rows@.take(i + 1)) =~= rows_view(rows@.take(i as int)).push(
                rows@[i as int]@,
            ));
            assert(rows_view(rows@.take(i + 1)).drop_last() =~= rows_view(rows@.take(i as int)));
            assert(out@ =~= seq!['['] + rows_text(rows_view(rows@.take(i + 1))));
        }
        i += 1;
    }
    push_char(&mut out, ']');
    proof {
        assert(rows@.take(n as int) =~= rows@);
        assert(out@ =~= json_array(rows_view(rows@)));
    }
    out
}

} // verus!
