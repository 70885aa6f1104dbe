//! Credential helpers: commands configured per registry whose output gives
//! the username and password.
//!
//! Two kinds are supported:
//! - JSON: a single command whose output is a JSON list of fields
//! - Split: separate commands for username and password
//!
//! Running a command and reading JSON are left to the caller, who hands in a
//! runner and a parser; this module decides which commands run and what the
//! credentials are.
use vstd::prelude::*;
use crate::text::{concat2, concat3, slice, str_eq, to_owned, trim, trimmed};
use vstd::utf8::{encode_scalar, encode_utf8};

verus! {

/// Credential helper configuration.
///
/// Supports two formats:
/// - JSON: Single command that outputs JSON with username and password
/// - Split: Separate commands for username and password
#[derive(Debug, Clone)]
pub enum CredentialHelper {
    /// Single command that outputs JSON with fields for username and password.
    ///
    /// Expected output format:
    /// `[{"id": "username", "value": "..."}, {"id": "password", "value": "..."}]`
    Json(String),
    /// Separate commands for username and password.
    Split {
        /// Command to get the username (output is trimmed).
        username: String,
        /// Command to get the password (output is trimmed).
        password: String,
    },
}

/// A field from the JSON credential helper output.
#[derive(Debug, Clone)]
pub struct CredentialField {
    /// What the field holds (`username`, `password`, or anything else).
    pub id: String,
    /// The field's value.
    pub value: String,
}

/// Why credentials could not be obtained.
#[derive(Debug, Clone)]
pub enum CredentialError {
    /// A command could not be run or failed; with the context and the cause.
    Command {
        /// What was being run.
        context: String,
        /// What went wrong.
        cause: String,
    },
    /// The output of a JSON helper was not a JSON list of fields; with a
    /// preview of the output.
    InvalidJson {
        /// The start of the output.
        preview: String,
        /// What the parser reported.
        cause: String,
    },
    /// The output of a JSON helper has no `username` field.
    MissingUsername,
    /// The output of a JSON helper has no `password` field.
    MissingPassword,
}

/// The longest output shown in full in an error.
pub const PREVIEW_LIMIT: usize = 100;

/// The last value of a field with id `id`, if any.
pub open spec fn last_field(fields: Seq<CredentialField>, id: Seq<char>) -> Option<Seq<char>>
    decreases fields.len(),
{
    if fields.len() == 0 {
        None
    } else if fields.last().id@ == id {
        Some(fields.last().value@)
    } else {
        last_field(fields.drop_last(), id)
    }
}

/// The `username` text.
pub open spec fn username_id() -> Seq<char> {
    "username"@
}

/// The `password` text.
pub open spec fn password_id() -> Seq<char> {
    "password"@
}

/// The credentials that the fields give: the last `username` and the last
/// `password` field; an error when one of them is missing.
pub open spec fn fields_credentials(fields: Seq<CredentialField>) -> Result<(Seq<char>, Seq<char>), CredentialError> {
    match last_field(fields, username_id()) {
        None => Err(CredentialError::MissingUsername),
        Some(u) => match last_field(fields, password_id()) {
            None => Err(CredentialError::MissingPassword),
            Some(p) => Ok((u, p)),
        },
    }
}

/// Pick the username and password out of the fields of a JSON helper's
/// output; fields with another id are ignored, and a later field wins over
/// an earlier one with the same id.
pub fn credentials_from_fields(fields: &Vec<CredentialField>) -> (r: Result<(String, String), CredentialError>)
    ensures
        match r {
            Ok((u, p)) => fields_credentials(fields@) == Ok::<(Seq<char>, Seq<char>), CredentialError>((u@, p@)),
            Err(e) => fields_credentials(fields@) == Err::<(Seq<char>, Seq<char>), CredentialError>(e),
        },
{
    let mut username: Option<String> = None;
    let mut password: Option<String> = None;
    let mut i: usize = 0;
    proof {
        reveal_strlit("username");
        reveal_strlit("password");
    }
    while i < fields.len()
        invariant
            i <= fields.len(),
            match username {
                Some(u) => last_field(fields@.take(i as int), username_id()) == Some(u@),
                None => last_field(fields@.take(i as int), username_id()) is None,
            },
            match password {
                Some(p) => last_field(fields@.take(i as int), password_id()) == Some(p@),
                None => last_field(fields@.take(i as int), password_id()) is None,
            },
        decreases fields.len() - i,
    {
        let f = &fields[i];
        assert(fields@.take(i + 1).drop_last() =~= fields@.take(i as int));
        assert(fields@.take(i + 1).last() == fields@[i as int]);
        if str_eq(f.id.as_str(), "username") {
            username = Some(f.value.clone());
        } else if str_eq(f.id.as_str(), "password") {
            password = Some(f.value.clone());
        }
        proof {
            reveal_strlit("username");
            reveal_strlit("password");
            assert(username_id() != password_id()) by {
                assert(username_id()[0] != password_id()[0]);
            }
        }
        i = i + 1;
    }
    assert(fields@.take(fields.len() as int) =~= fields@);
    match username {
        None => Err(CredentialError::MissingUsername),
        Some(u) => match password {
            None => Err(CredentialError::MissingPassword),
            Some(p) => Ok((u, p)),
        },
    }
}

/// The number of bytes of the UTF-8 encoding of `s`.
pub open spec fn utf8_len(s: Seq<char>) -> nat {
    encode_utf8(s).len()
}

/// The number of bytes of the UTF-8 encoding of `c`.
pub open spec fn char_utf8_len(c: char) -> nat {
    encode_scalar(c as u32).len()
}

/// How many characters from the start of `s` fit, encoded, in `limit`
/// bytes.
pub open spec fn chars_within(s: Seq<char>, limit: int) -> nat
    decreases s.len(),
{
    if s.len() == 0 || char_utf8_len(s[0]) > limit {
        0
    } else {
        1 + chars_within(s.drop_first(), limit - char_utf8_len(s[0]))
    }
}

/// The output shown in an error: the output itself when its UTF-8 encoding
/// has at most a hundred bytes; otherwise its first hundred bytes followed
/// by `...`, cut back to the character boundary before byte 100 where that
/// byte falls inside a character.
#[verifier::opaque]
pub open spec fn preview_of(output: Seq<char>) -> Seq<char> {
    if utf8_len(output) > PREVIEW_LIMIT {
        output.take(chars_within(output, PREVIEW_LIMIT as int) as int) + "..."@
    } else {
        output
    }
}

/// Encoding two texts one after the other gives the two encodings one
/// after the other.
pub proof fn lemma_utf8_concat(a: Seq<char>, b: Seq<char>)
    ensures
        encode_utf8(a + b) == encode_utf8(a) + encode_utf8(b),
    decreases a.len(),
{
    if a.len() == 0 {
        assert(a + b =~= b);
        assert(encode_utf8(a) =~= Seq::<u8>::empty());
        assert(encode_utf8(a) + encode_utf8(b) =~= encode_utf8(b));
    } else {
        assert((a + b)[0] == a[0]);
        assert((a + b).drop_first() =~= a.drop_first() + b);
        lemma_utf8_concat(a.drop_first(), b);
        assert(encode_utf8(a + b) =~= encode_utf8(a) + encode_utf8(b));
    }
}

/// The encoding of a text is the encoding of its first character followed
/// by that of the rest.
proof fn lemma_utf8_len_first(s: Seq<char>)
    requires
        s.len() > 0,
    ensures
        utf8_len(s) == char_utf8_len(s[0]) + utf8_len(s.drop_first()),
{
}

fn char_bytes(c: char) -> (r: usize)
    ensures
        r == char_utf8_len(c),
        1 <= r <= 4,
{
    proof {
        vstd::utf8::char_is_scalar(c);
    }
    let v = c as u32;
    if v <= 0x7F {
        1
    } else if v <= 0x7FF {
        2
    } else if v <= 0xFFFF {
        3
    } else {
        4
    }
}

/// The output shown in an error, cut short so that long output, which may
/// hold credentials, is not shown in full.
pub fn output_preview(output: &str) -> (r: String)
    ensures
        r@ == preview_of(output@),
{
    reveal(preview_of);
    let n = output.unicode_len();
    let ghost s = output@;
    let mut used: usize = 0;
    let mut i: usize = 0;
    assert(s.skip(0) =~= s);
    assert(s.take(0) =~= Seq::<char>::empty());
    while i < n
        invariant
            n == s.len(),
            s == output@,
            i <= n,
            used <= PREVIEW_LIMIT,
            used == utf8_len(s.take(i as int)),
            chars_within(s, PREVIEW_LIMIT as int) == i + chars_within(s.skip(i as int), PREVIEW_LIMIT - used),
            utf8_len(s) == used + utf8_len(s.skip(i as int)),
        decreases n - i,
    {
        let c = output.get_char(i);
        let w = char_bytes(c);
        proof {
            let rest = s.skip(i as int);
            assert(rest[0] == c);
            assert(rest.drop_first() =~= s.skip(i + 1));
            lemma_utf8_len_first(rest);
            assert(s.take(i + 1) =~= s.take(i as int) + seq![c]);
            lemma_utf8_concat(s.take(i as int), seq![c]);
            assert(seq![c].drop_first() =~= Seq::<char>::empty());
            reveal_with_fuel(encode_utf8, 2);
            assert(encode_utf8(seq![c]) =~= encode_scalar(c as u32));
        }
        if used + w > PREVIEW_LIMIT {
            proof {
                let rest = s.skip(i as int);
                assert(chars_within(rest, PREVIEW_LIMIT - used) == 0);
                assert(utf8_len(s) > PREVIEW_LIMIT);
                reveal(preview_of);
            }
            return concat2(slice(output, 0, i), "...");
        }
        used = used + w;
        i = i + 1;
    }
    assert(s.skip(n as int) =~= Seq::<char>::empty());
    to_owned(output)
}

/// `run` may give `out` as the output of command `cmd`.
pub open spec fn runs_to<R: Fn(&str) -> Result<String, String>>(run: R, cmd: Seq<char>, out: Seq<char>) -> bool {
    exists|c: &str, o: String| c@ == cmd && o@ == out && #[trigger] call_ensures(run, (c,), Ok::<String, String>(o))
}

/// `parse` may read `text` as the list `fields`.
pub open spec fn parses_to<P: Fn(&str) -> Result<Vec<CredentialField>, String>>(
    parse: P,
    text: Seq<char>,
    fields: Seq<CredentialField>,
) -> bool {
    exists|c: &str, f: Vec<CredentialField>|
        c@ == text && f@ == fields && #[trigger] call_ensures(parse, (c,), Ok::<Vec<CredentialField>, String>(f))
}

/// `run` may fail on command `cmd` with `cause`.
pub open spec fn run_fails<R: Fn(&str) -> Result<String, String>>(run: R, cmd: Seq<char>, cause: Seq<char>) -> bool {
    exists|c: &str, e: String| c@ == cmd && e@ == cause && #[trigger] call_ensures(run, (c,), Err::<String, String>(e))
}

/// `parse` may fail to read `text`, with `cause`.
pub open spec fn parse_fails<P: Fn(&str) -> Result<Vec<CredentialField>, String>>(
    parse: P,
    text: Seq<char>,
    cause: Seq<char>,
) -> bool {
    exists|c: &str, e: String|
        c@ == text && e@ == cause && #[trigger] call_ensures(parse, (c,), Err::<Vec<CredentialField>, String>(e))
}

/// Why a JSON helper that ran `cmd` may fail with `e`: its command failed;
/// or its trimmed output did not parse, which the error previews; or the
/// parsed fields lack a username or a password.
pub open spec fn json_helper_fails<R: Fn(&str) -> Result<String, String>, P: Fn(&str) -> Result<Vec<CredentialField>, String>>(
    run: R,
    parse: P,
    cmd: Seq<char>,
    e: CredentialError,
) -> bool {
    match e {
        CredentialError::Command { context, cause } => {
            &&& context@ == "Failed to execute credential helper: "@ + cmd
            &&& run_fails(run, cmd, cause@)
        },
        CredentialError::InvalidJson { preview, cause } => exists|out: Seq<char>|
            {
                &&& #[trigger] runs_to(run, cmd, out)
                &&& preview@ == preview_of(trimmed(out))
                &&& parse_fails(parse, trimmed(out), cause@)
            },
        _ => exists|out: Seq<char>, fields: Seq<CredentialField>|
            {
                &&& #[trigger] runs_to(run, cmd, out)
                &&& #[trigger] parses_to(parse, trimmed(out), fields)
                &&& fields_credentials(fields) == Err::<(Seq<char>, Seq<char>), CredentialError>(e)
            },
    }
}

/// Why a split helper that runs `ucmd` and then `pcmd` may fail with `e`:
/// one of its commands failed, the first one first.
pub open spec fn split_helper_fails<R: Fn(&str) -> Result<String, String>>(
    run: R,
    ucmd: Seq<char>,
    pcmd: Seq<char>,
    e: CredentialError,
) -> bool {
    match e {
        CredentialError::Command { context, cause } => {
            ||| {
                &&& context@ == "Failed to execute username credential helper: "@ + ucmd
                &&& run_fails(run, ucmd, cause@)
            }
            ||| {
                &&& exists|uo: Seq<char>| #[trigger] runs_to(run, ucmd, uo)
                &&& context@ == "Failed to execute password credential helper: "@ + pcmd
                &&& run_fails(run, pcmd, cause@)
            }
        },
        _ => false,
    }
}

/// What a JSON helper that ran `cmd` may give as credentials.
pub open spec fn json_helper_gives<R: Fn(&str) -> Result<String, String>, P: Fn(&str) -> Result<Vec<CredentialField>, String>>(
    run: R,
    parse: P,
    cmd: Seq<char>,
    u: Seq<char>,
    p: Seq<char>,
) -> bool {
    exists|out: Seq<char>, fields: Seq<CredentialField>|
        {
            &&& #[trigger] runs_to(run, cmd, out)
            &&& #[trigger] parses_to(parse, trimmed(out), fields)
            &&& fields_credentials(fields) == Ok::<(Seq<char>, Seq<char>), CredentialError>((u, p))
        }
}

/// What a split helper that ran `ucmd` and `pcmd` may give as credentials.
pub open spec fn split_helper_gives<R: Fn(&str) -> Result<String, String>>(
    run: R,
    ucmd: Seq<char>,
    pcmd: Seq<char>,
    u: Seq<char>,
    p: Seq<char>,
) -> bool {
    exists|uo: Seq<char>, po: Seq<char>|
        {
            &&& #[trigger] runs_to(run, ucmd, uo)
            &&& #[trigger] runs_to(run, pcmd, po)
            &&& u == trimmed(uo)
            &&& p == trimmed(po)
        }
}

impl CredentialHelper {
    /// The helper's credentials, from the output of its commands: for a
    /// JSON helper the fields its trimmed output parses to; for a split
    /// helper the trimmed output of each command. `run` runs a command and
    /// gives its standard output; `parse_fields` reads a JSON list of
    /// fields.
    pub fn execute<R, P>(&self, run: &R, parse_fields: &P) -> (r: Result<(String, String), CredentialError>)
        where
            R: Fn(&str) -> Result<String, String>,
            P: Fn(&str) -> Result<Vec<CredentialField>, String>,
        requires
            forall|c: &str| call_requires(*run, (c,)),
            forall|c: &str| call_requires(*parse_fields, (c,)),
        ensures
            match *self {
                CredentialHelper::Json(cmd) => match r {
                    Ok((u, p)) => json_helper_gives(*run, *parse_fields, cmd@, u@, p@),
                    Err(e) => json_helper_fails(*run, *parse_fields, cmd@, e),
                },
                CredentialHelper::Split { username, password } => match r {
                    Ok((u, p)) => split_helper_gives(*run, username@, password@, u@, p@),
                    Err(e) => split_helper_fails(*run, username@, password@, e),
                },
            },
    {
        match self {
            CredentialHelper::Json(cmd) => execute_json_helper(cmd.as_str(), run, parse_fields),
            CredentialHelper::Split { username, password } => execute_split_helper(
                username.as_str(),
                password.as_str(),
                run,
            ),
        }
    }
}

/// Run a JSON helper: run `cmd`, parse its trimmed output into fields and
/// pick the credentials out of them.
pub fn execute_json_helper<R, P>(cmd: &str, run: &R, parse_fields: &P) -> (r: Result<(String, String), CredentialError>)
    where
        R: Fn(&str) -> Result<String, String>,
        P: Fn(&str) -> Result<Vec<CredentialField>, String>,
    requires
        forall|c: &str| call_requires(*run, (c,)),
        forall|c: &str| call_requires(*parse_fields, (c,)),
    ensures
        match r {
            Ok((u, p)) => json_helper_gives(*run, *parse_fields, cmd@, u@, p@),
            Err(e) => json_helper_fails(*run, *parse_fields, cmd@, e),
        },
{
    let out = match run(cmd) {
        Ok(o) => o,
        Err(cause) => {
            proof {
                assert(run_fails(*run, cmd@, cause@));
            }
            return Err(
                CredentialError::Command {
                    context: concat2("Failed to execute credential helper: ", cmd),
                    cause,
                },
            );
        },
    };
    let trimmed_out = trim(out.as_str());
    proof {
        assert(runs_to(*run, cmd@, out@));
    }
    let fields = match parse_fields(trimmed_out) {
        Ok(f) => f,
        Err(cause) => {
            proof {
                assert(parse_fails(*parse_fields, trimmed(out@), cause@));
            }
            return Err(CredentialError::InvalidJson { preview: output_preview(trimmed_out), cause });
        },
    };
    let r = credentials_from_fields(&fields);
    proof {
        assert(runs_to(*run, cmd@, out@));
        assert(parses_to(*parse_fields, trimmed(out@), fields@));
    }
    r
}

/// Run a split helper: the trimmed output of each command.
pub fn execute_split_helper<R>(username_cmd: &str, password_cmd: &str, run: &R) -> (r: Result<(String, String), CredentialError>)
    where
        R: Fn(&str) -> Result<String, String>,
    requires
        forall|c: &str| call_requires(*run, (c,)),
    ensures
        match r {
            Ok((u, p)) => split_helper_gives(*run, username_cmd@, password_cmd@, u@, p@),
            Err(e) => split_helper_fails(*run, username_cmd@, password_cmd@, e),
        },
{
    let uo = match run(username_cmd) {
        Ok(o) => o,
        Err(cause) => {
            proof {
                assert(run_fails(*run, username_cmd@, cause@));
            }
            return Err(
                CredentialError::Command {
                    context: concat2("Failed to execute username credential helper: ", username_cmd),
                    cause,
                },
            );
        },
    };
    proof {
        assert(runs_to(*run, username_cmd@, uo@));
    }
    let po = match run(password_cmd) {
        Ok(o) => o,
        Err(cause) => {
            proof {
                assert(run_fails(*run, password_cmd@, cause@));
            }
            return Err(
                CredentialError::Command {
                    context: concat2("Failed to execute password credential helper: ", password_cmd),
                    cause,
                },
            );
        },
    };
    let u = to_owned(trim(uo.as_str()));
    let p = to_owned(trim(po.as_str()));
    proof {
        assert(runs_to(*run, username_cmd@, uo@));
        assert(runs_to(*run, password_cmd@, po@));
    }
    Ok((u, p))
}

/// The message of an error.
pub open spec fn error_message(e: CredentialError) -> Seq<char> {
    match e {
        CredentialError::Command { context, cause } => context@ + ": "@ + cause@,
        CredentialError::InvalidJson { preview, .. } => "Failed to parse credential helper output as JSON: "@
            + preview@,
        CredentialError::MissingUsername => "Credential helper output missing 'username' field"@,
        CredentialError::MissingPassword => "Credential helper output missing 'password' field"@,
    }
}

impl CredentialError {
    /// The error's message.
    pub fn message(&self) -> (r: String)
        ensures
            r@ == error_message(*self),
    {
        match self {
            CredentialError::Command { context, cause } => concat3(context.as_str(), ": ", cause.as_str()),
            CredentialError::InvalidJson { preview, .. } => concat2(
                "Failed to parse credential helper output as JSON: ",
                preview.as_str(),
            ),
            CredentialError::MissingUsername => to_owned("Credential helper output missing 'username' field"),
            CredentialError::MissingPassword => to_owned("Credential helper output missing 'password' field"),
        }
    }
}

} // verus!
