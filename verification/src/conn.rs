//! Connection factory: one short-lived logical connection per query call.
//!
//! A logical connection is owned solely by the call that created it and
//! discarded right after the result is captured, so concurrent query calls
//! share nothing mutable. The factory only builds the connection URI from the
//! handle's fixed credentials and port; opening the transport is the
//! unverified shell's job, and a transport failure is a `ConnectError`.

use vstd::prelude::*;
use vstd::string::StringExecFns;
use crate::supervisor::ServerHandle;
use crate::supervisor::connectable;
use crate::supervisor::freshly_prepared;
use crate::supervisor::same_configuration;
use crate::supervisor::fixed_user;
use crate::supervisor::fixed_password;

verus! {

/// The decimal digit character for `d`.
pub open spec fn dec_digit_char(d: nat) -> char {
    if d == 0 {
        '0'
    } else if d == 1 {
        '1'
    } else if d == 2 {
        '2'
    } else if d == 3 {
        '3'
    } else if d == 4 {
        '4'
    } else if d == 5 {
        '5'
    } else if d == 6 {
        '6'
    } else if d == 7 {
        '7'
    } else if d == 8 {
        '8'
    } else {
        '9'
    }
}

/// The decimal rendering of `n`, most significant digit first, no leading
/// zeros (a single `'0'` for zero).
pub open spec fn dec_text(n: nat) -> Seq<char>
    decreases n,
{
    if n < 10 {
        seq![dec_digit_char(n)]
    } else {
        dec_text(n / 10) + seq![dec_digit_char(n % 10)]
    }
}

/// The connection URI for the given credentials, port and database name.
pub open spec fn uri_text(user: Seq<char>, password: Seq<char>, port: nat, db: Seq<char>) -> Seq<char> {
    "postgres://"@ + user + ":"@ + password + "@localhost:"@ + dec_text(port) + "/"@ + db
}

/// The fixed database name that UI-triggered queries run against.
pub fn default_database() -> (r: String)
    ensures
        r@ == "test"@,
{
    "test".to_owned()
}

/// One transport session to one database, discarded after one use.
#[derive(Debug, Clone)]
pub struct LogicalConnection {
    /// The database this connection targets.
    pub db_name: String,
    /// The URI the transport is opened with.
    pub uri: String,
}

fn digit_str(d: u16) -> (r: &'static str)
    requires
        d < 10,
    ensures
        r@ == seq![dec_digit_char(d as nat)],
{
    proof {
        reveal_strlit("0");
        reveal_strlit("1");
        reveal_strlit("2");
        reveal_strlit("3");
        reveal_strlit("4");
        reveal_strlit("5");
        reveal_strlit("6");
        reveal_strlit("7");
        reveal_strlit("8");
        reveal_strlit("9");
    }
    if d == 0 {
        proof { assert("0"@ =~= seq![dec_digit_char(d as nat)]); }
        "0"
    } else if d == 1 {
        proof { assert("1"@ =~= seq![dec_digit_char(d as nat)]); }
        "1"
    } else if d == 2 {
        proof { assert("2"@ =~= seq![dec_digit_char(d as nat)]); }
        "2"
    } else if d == 3 {
        proof { assert("3"@ =~= seq![dec_digit_char(d as nat)]); }
        "3"
    } else if d == 4 {
        proof { assert("4"@ =~= seq![dec_digit_char(d as nat)]); }
        "4"
    } else if d == 5 {
        proof { assert("5"@ =~= seq![dec_digit_char(d as nat)]); }
        "5"
    } else if d == 6 {
        proof { assert("6"@ =~= seq![dec_digit_char(d as nat)]); }
        "6"
    } else if d == 7 {
        proof { assert("7"@ =~= seq![dec_digit_char(d as nat)]); }
        "7"
    } else if d == 8 {
        proof { assert("8"@ =~= seq![dec_digit_char(d as nat)]); }
        "8"
    } else {
        proof { assert("9"@ =~= seq![dec_digit_char(d as nat)]); }
        "9"
    }
}

/// Append the decimal rendering of `n` to `out`.
fn push_dec_digits(n: u16, out: &mut String)
    ensures
        final(out)@ == old(out)@ + dec_text(n as nat),
    decreases n,
{
    if n >= 10 {
        push_dec_digits(n / 10, out);
        let d: u16 = n % 10;
        out.append(digit_str(d));
        proof {
            assert(final(out)@ =~= old(out)@ + dec_text(n as nat));
        }
    } else {
        out.append(digit_str(n));
        proof {
            assert(final(out)@ =~= old(out)@ + dec_text(n as nat));
        }
    }
}

/// Build the connection URI from the handle's credentials and port.
pub fn connection_uri(h: &ServerHandle, db_name: &str) -> (uri: String)
    ensures
        uri@ == uri_text(h.user@, h.password@, h.port as nat, db_name@),
{
    let mut uri: String = "postgres://".to_owned();
    uri.append(h.user.as_str());
    uri.append(":");
    uri.append(h.password.as_str());
    uri.append("@localhost:");
    push_dec_digits(h.port, &mut uri);
    uri.append("/");
    uri.append(db_name);
    proof {
        assert(uri@ =~= uri_text(h.user@, h.password@, h.port as nat, db_name@));
    }
    uri
}

/// Open one logical connection against a running engine.
///
/// Stateless across calls: every call builds the URI afresh from the shared
/// read-only handle. The transport itself is opened by the unverified shell
/// from `uri`; if the engine is unreachable or the credentials are rejected,
/// that attempt fails without retry as a `ConnectError`.
pub fn connect(h: &ServerHandle, db_name: &str) -> (c: LogicalConnection)
    requires
        connectable(*h),
    ensures
        c.db_name@ == db_name@,
        c.uri@ == uri_text(h.user@, h.password@, h.port as nat, db_name@),
{
    LogicalConnection { db_name: db_name.to_owned(), uri: connection_uri(h, db_name) }
}

/// For every valid `(port, storage dir)`: a handle from `setup`, once `start`
/// has driven it to `Running`, meets `connect`'s precondition, and the URI
/// `connect` yields targets the configured port and database under the fixed
/// local credentials.
pub proof fn lemma_setup_start_connectable(
    h0: ServerHandle,
    h1: ServerHandle,
    port: u16,
    storage_dir: Seq<char>,
    persistent: bool,
    db: Seq<char>,
)
    requires
        freshly_prepared(h0, port, storage_dir, persistent),
        same_configuration(h0, h1),
        h1.status is Running,
    ensures
        connectable(h1),
        uri_text(h1.user@, h1.password@, h1.port as nat, db) == uri_text(
            fixed_user(),
            fixed_password(),
            port as nat,
            db,
        ),
{
}

} // verus!
