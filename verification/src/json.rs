//! Verified JSON framing of the request bodies the client sends.
//!
//! Every request body is a flat JSON object of string fields. The functions
//! here build those bodies byte by byte, and the specification functions pin
//! the exact byte sequence produced, including the escaping of each string.

use vstd::prelude::*;
use vstd::string::*;

verus! {

/// The lower-case hexadecimal digit byte for `n` (`n < 16`).
pub open spec fn hex_digit(n: nat) -> u8 {
    if n < 10 {
        (48 + n) as u8
    } else {
        (87 + n) as u8
    }
}

/// How one byte of a string appears inside a JSON string literal:
/// quote and backslash get a backslash escape, the common control characters
/// get their short escapes, the remaining control bytes get a `\u00XX`
/// escape, and every other byte stands for itself.
pub open spec fn escaped_byte(b: u8) -> Seq<u8> {
    if b == 34 {
        seq![92u8, 34u8]
    } else if b == 92 {
        seq![92u8, 92u8]
    } else if b == 10 {
        seq![92u8, 110u8]
    } else if b == 13 {
        seq![92u8, 114u8]
    } else if b == 9 {
        seq![92u8, 116u8]
    } else if b < 32 {
        seq![92u8, 117u8, 48u8, 48u8, hex_digit((b / 16) as nat), hex_digit((b % 16) as nat)]
    } else {
        seq![b]
    }
}

/// The JSON escaping of a whole byte string.
pub open spec fn escaped(s: Seq<u8>) -> Seq<u8>
    decreases s.len(),
{
    if s.len() == 0 {
        Seq::empty()
    } else {
        escaped_byte(s[0]) + escaped(s.drop_first())
    }
}

/// A JSON string literal: the escaped bytes between double quotes.
pub open spec fn jstr(s: Seq<u8>) -> Seq<u8> {
    seq![34u8] + escaped(s) + seq![34u8]
}

/// One `"name":"value"` member of a JSON object.
pub open spec fn jfield(name: Seq<u8>, value: Seq<u8>) -> Seq<u8> {
    jstr(name) + seq![58u8] + jstr(value)
}

/// The given parts joined by commas.
pub open spec fn comma_join(parts: Seq<Seq<u8>>) -> Seq<u8>
    decreases parts.len(),
{
    if parts.len() == 0 {
        Seq::empty()
    } else if parts.len() == 1 {
        parts[0]
    } else {
        parts[0] + seq![44u8] + comma_join(parts.drop_first())
    }
}

/// A JSON object with the given members, in order.
pub open spec fn jobject(parts: Seq<Seq<u8>>) -> Seq<u8> {
    seq![123u8] + comma_join(parts) + seq![125u8]
}

/// The member list contributed by one optional field: one member when the
/// field is present, nothing when it is absent.
pub open spec fn opt_field(name: Seq<u8>, v: Option<Seq<u8>>) -> Seq<Seq<u8>> {
    match v {
        Some(s) => seq![jfield(name, s)],
        None => Seq::empty(),
    }
}

/// The UTF-8 bytes of an optional string argument.
pub open spec fn opt_bytes(o: Option<&str>) -> Option<Seq<u8>> {
    match o {
        Some(s) => Some(s.spec_bytes()),
        None => None,
    }
}

/// Escaping distributes over appending one byte at the end.
pub proof fn lemma_escaped_snoc(s: Seq<u8>)
    requires
        s.len() > 0,
    ensures
        escaped(s) == escaped(s.drop_last()) + escaped_byte(s.last()),
    decreases s.len(),
{
    if s.len() == 1 {
        assert(s.drop_last() =~= Seq::<u8>::empty());
        assert(s.drop_first() =~= Seq::<u8>::empty());
        assert(escaped(s) =~= escaped(s.drop_last()) + escaped_byte(s.last()));
    } else {
        lemma_escaped_snoc(s.drop_first());
        assert(s.drop_first().drop_last() =~= s.drop_last().drop_first());
        assert(s.drop_first().last() == s.last());
        assert(s.drop_last()[0] == s[0]);
        assert(escaped(s) =~= escaped(s.drop_last()) + escaped_byte(s.last()));
    }
}

/// Joining one more part appends it after a comma, unless it is the first.
pub proof fn lemma_comma_join_snoc(parts: Seq<Seq<u8>>, p: Seq<u8>)
    ensures
        comma_join(parts.push(p)) == if parts.len() == 0 {
            p
        } else {
            comma_join(parts) + seq![44u8] + p
        },
    decreases parts.len(),
{
    if parts.len() == 0 {
        assert(parts.push(p).len() == 1);
        assert(parts.push(p)[0] == p);
    } else {
        lemma_comma_join_snoc(parts.drop_first(), p);
        assert(parts.push(p).drop_first() =~= parts.drop_first().push(p));
        assert(parts.push(p)[0] == parts[0]);
        if parts.len() == 1 {
            assert(comma_join(parts.push(p)) =~= comma_join(parts) + seq![44u8] + p);
        } else {
            assert(comma_join(parts.push(p)) =~= comma_join(parts) + seq![44u8] + p);
        }
    }
}

/// Appends the single hexadecimal digit for `n` to `out`.
fn push_hex(out: &mut Vec<u8>, n: u8)
    requires
        n < 16,
    ensures
        final(out)@ == old(out)@ + seq![hex_digit(n as nat)],
{
    if n < 10 {
        out.push(48 + n);
    } else {
        out.push(87 + n);
    }
    proof {
        assert(out@ =~= old(out)@ + seq![hex_digit(n as nat)]);
    }
}

/// Appends the JSON escaping of `s` to `out`.
fn escape_into(out: &mut Vec<u8>, s: &[u8])
    ensures
        final(out)@ == old(out)@ + escaped(s@),
{
    let mut i: usize = 0;
    while i < s.len()
        invariant
            i <= s@.len(),
            out@ == old(out)@ + escaped(s@.take(i as int)),
        decreases s@.len() - i,
    {
        let b = s[i];
        if b == 34 {
            out.push(92);
            out.push(34);
        } else if b == 92 {
            out.push(92);
            out.push(92);
        } else if b == 10 {
            out.push(92);
            out.push(110);
        } else if b == 13 {
            out.push(92);
            out.push(114);
        } else if b == 9 {
            out.push(92);
            out.push(116);
        } else if b < 32 {
            out.push(92);
            out.push(117);
            out.push(48);
            out.push(48);
            push_hex(out, b / 16);
            push_hex(out, b % 16);
        } else {
            out.push(b);
        }
        proof {
            lemma_escaped_snoc(s@.take(i as int + 1));
            assert(s@.take(i as int + 1).drop_last() =~= s@.take(i as int));
            assert(s@.take(i as int + 1).last() == s@[i as int]);
            assert(out@ =~= old(out)@ + escaped(s@.take(i as int + 1)));
        }
        i = i + 1;
    }
    proof {
        assert(s@.take(s@.len() as int) =~= s@);
    }
}

/// Appends the JSON string literal for `s` to `out`.
fn push_jstr(out: &mut Vec<u8>, s: &str)
    ensures
        final(out)@ == old(out)@ + jstr(s.spec_bytes()),
{
    out.push(34);
    escape_into(out, s.as_bytes());
    out.push(34);
    proof {
        assert(out@ =~= old(out)@ + jstr(s.spec_bytes()));
    }
}

/// Appends one object member to `out`, with a leading comma unless it is the
/// first member of the object.
pub(crate) fn push_field(out: &mut Vec<u8>, first: bool, name: &str, value: &str)
    ensures
        final(out)@ == old(out)@ + (if first {
            Seq::<u8>::empty()
        } else {
            seq![44u8]
        }) + jfield(name.spec_bytes(), value.spec_bytes()),
{
    if !first {
        out.push(44);
    }
    push_jstr(out, name);
    out.push(58);
    push_jstr(out, value);
    proof {
        assert(out@ =~= old(out)@ + (if first {
            Seq::<u8>::empty()
        } else {
            seq![44u8]
        }) + jfield(name.spec_bytes(), value.spec_bytes()));
    }
}

/// The wire body of the session-start request: whichever of the optional
/// fields are present, in the fixed order characterType, customPrompt, name,
/// and then always storyMode.
pub open spec fn start_options_json(
    character_type: Option<Seq<u8>>,
    custom_prompt: Option<Seq<u8>>,
    name: Option<Seq<u8>>,
    story_mode: Seq<u8>,
) -> Seq<u8> {
    jobject(
        opt_field("characterType".spec_bytes(), character_type) + opt_field(
            "customPrompt".spec_bytes(),
            custom_prompt,
        ) + opt_field("name".spec_bytes(), name) + seq![
            jfield("storyMode".spec_bytes(), story_mode),
        ],
    )
}

/// The wire body of the account requests: a JSON object carrying whichever of
/// `email`, `username` and `password` are present, in that order.
pub open spec fn user_auth_json(
    email: Option<Seq<u8>>,
    username: Option<Seq<u8>>,
    password: Option<Seq<u8>>,
) -> Seq<u8> {
    jobject(
        opt_field("email".spec_bytes(), email) + opt_field("username".spec_bytes(), username)
            + opt_field("password".spec_bytes(), password),
    )
}

/// Builds the body of an account request from the credential fields that the
/// operation supplies.
pub fn encode_user_auth(email: Option<&str>, username: Option<&str>, password: Option<&str>) -> (body: Vec<
    u8,
>)
    ensures
        body@ == user_auth_json(opt_bytes(email), opt_bytes(username), opt_bytes(password)),
{
    let mut out: Vec<u8> = Vec::new();
    out.push(123);
    let ghost mut parts: Seq<Seq<u8>> = Seq::empty();
    let mut first: bool = true;
    assert(out@ =~= seq![123u8] + comma_join(parts));
    if let Some(e) = email {
        push_field(&mut out, first, "email", e);
        proof {
            lemma_comma_join_snoc(parts, jfield("email".spec_bytes(), e.spec_bytes()));
            parts = parts.push(jfield("email".spec_bytes(), e.spec_bytes()));
            assert(out@ =~= seq![123u8] + comma_join(parts));
        }
        first = false;
    }
    proof {
        assert(parts =~= opt_field("email".spec_bytes(), opt_bytes(email)));
        assert(first == (parts.len() == 0));
    }
    if let Some(u) = username {
        push_field(&mut out, first, "username", u);
        proof {
            lemma_comma_join_snoc(parts, jfield("username".spec_bytes(), u.spec_bytes()));
            parts = parts.push(jfield("username".spec_bytes(), u.spec_bytes()));
            assert(out@ =~= seq![123u8] + comma_join(parts));
        }
        first = false;
    }
    proof {
        assert(parts =~= opt_field("email".spec_bytes(), opt_bytes(email)) + opt_field(
            "username".spec_bytes(),
            opt_bytes(username),
        ));
        assert(first == (parts.len() == 0));
    }
    if let Some(p) = password {
        push_field(&mut out, first, "password", p);
        proof {
            lemma_comma_join_snoc(parts, jfield("password".spec_bytes(), p.spec_bytes()));
            parts = parts.push(jfield("password".spec_bytes(), p.spec_bytes()));
            assert(out@ =~= seq![123u8] + comma_join(parts));
        }
        first = false;
    }
    proof {
        assert(parts =~= opt_field("email".spec_bytes(), opt_bytes(email)) + opt_field(
            "username".spec_bytes(),
            opt_bytes(username),
        ) + opt_field("password".spec_bytes(), opt_bytes(password)));
    }
    out.push(125);
    proof {
        assert(out@ =~= jobject(parts));
    }
    out
}

/// The wire body of the turn-advance request: a JSON object with the one
/// field `text`.
pub open spec fn text_input_json(text: Seq<u8>) -> Seq<u8> {
    jobject(seq![jfield("text".spec_bytes(), text)])
}

/// Builds the body of a turn-advance request carrying the player's text.
pub fn encode_text_input(text: &str) -> (body: Vec<u8>)
    ensures
        body@ == text_input_json(text.spec_bytes()),
{
    let mut out: Vec<u8> = Vec::new();
    out.push(123);
    push_field(&mut out, true, "text", text);
    out.push(125);
    proof {
        let f = jfield("text".spec_bytes(), text.spec_bytes());
        assert(comma_join(seq![f]) == f);
        assert(out@ =~= jobject(seq![f]));
    }
    out
}

} // verus!
