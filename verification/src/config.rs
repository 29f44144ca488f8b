//! Startup configuration logic: splitting the upstream list, parsing the
//! listen port, and the fatal-startup decision that gates binding.
use vstd::prelude::*;
use vstd::string::StrSliceExecFns;
use vstd::string::StringExecFns;
use crate::errors::StartupError;
use crate::pool::UpstreamPool;

verus! {

/// The view of a list of owned strings, as a sequence of character sequences.
pub open spec fn strings_view(v: Seq<String>) -> Seq<Seq<char>> {
    Seq::new(v.len(), |i: int| v[i]@)
}

/// ASCII whitespace, as trimmed from each configured upstream entry.
pub open spec fn is_space(c: char) -> bool {
    c == ' ' || c == '\t' || c == '\r' || c == '\n'
}

/// `s` with its leading whitespace removed.
pub open spec fn trim_start(s: Seq<char>) -> Seq<char>
    decreases s.len(),
{
    if s.len() > 0 && is_space(s[0]) {
        trim_start(s.skip(1))
    } else {
        s
    }
}

/// `s` with its trailing whitespace removed.
pub open spec fn trim_end(s: Seq<char>) -> Seq<char>
    decreases s.len(),
{
    if s.len() > 0 && is_space(s.last()) {
        trim_end(s.drop_last())
    } else {
        s
    }
}

/// `s` with leading and trailing whitespace removed.
pub open spec fn spec_trim(s: Seq<char>) -> Seq<char> {
    trim_end(trim_start(s))
}

/// `s` split at every comma; a string without commas is one piece, and every
/// comma ends a piece, so there is always one piece more than commas.
pub open spec fn spec_split_commas(s: Seq<char>) -> Seq<Seq<char>>
    decreases s.len(),
{
    if s.len() == 0 {
        seq![Seq::<char>::empty()]
    } else if s.last() == ',' {
        spec_split_commas(s.drop_last()).push(Seq::<char>::empty())
    } else {
        let p = spec_split_commas(s.drop_last());
        p.update(p.len() - 1, p.last().push(s.last()))
    }
}

/// Each piece trimmed, with the pieces that trim to nothing dropped.
pub open spec fn spec_trim_keep(ps: Seq<Seq<char>>) -> Seq<Seq<char>>
    decreases ps.len(),
{
    if ps.len() == 0 {
        Seq::empty()
    } else {
        let r = spec_trim_keep(ps.drop_last());
        if spec_trim(ps.last()).len() > 0 {
            r.push(spec_trim(ps.last()))
        } else {
            r
        }
    }
}

/// The upstream pool described by a comma-separated configuration string:
/// split at commas, each entry trimmed, empty entries dropped.
pub open spec fn spec_upstream_list(s: Seq<char>) -> Seq<Seq<char>> {
    spec_trim_keep(spec_split_commas(s))
}

/// Decide whether `c` is ASCII whitespace.
pub fn is_space_char(c: char) -> (r: bool)
    ensures
        r == is_space(c),
{
    c == ' ' || c == '\t' || c == '\r' || c == '\n'
}

/// Remove leading and trailing ASCII whitespace from `s`.
pub fn trim_str(s: &str) -> (r: String)
    ensures
        r@ == spec_trim(s@),
{
    let n = s.unicode_len();
    let mut a: usize = 0;
    proof {
        assert(s@.skip(0) =~= s@);
    }
    while a < n && is_space_char(s.get_char(a))
        invariant
            a <= n,
            n == s@.len(),
            trim_start(s@) == trim_start(s@.skip(a as int)),
        decreases n - a,
    {
        proof {
            assert(s@.skip(a as int).skip(1) =~= s@.skip(a as int + 1));
        }
        a = a + 1;
    }
    proof {
        if a < n {
            assert(trim_start(s@.skip(a as int)) == s@.skip(a as int));
        }
        assert(s@.skip(n as int) =~= Seq::<char>::empty());
        assert(trim_start(s@) =~= s@.subrange(a as int, n as int));
    }
    let mut b: usize = n;
    while b > a && is_space_char(s.get_char(b - 1))
        invariant
            a <= b <= n,
            n == s@.len(),
            trim_start(s@) == s@.subrange(a as int, n as int),
            trim_end(s@.subrange(a as int, n as int)) == trim_end(
                s@.subrange(a as int, b as int),
            ),
        decreases b,
    {
        proof {
            assert(s@.subrange(a as int, b as int).drop_last() =~= s@.subrange(
                a as int,
                b as int - 1,
            ));
        }
        b = b - 1;
    }
    proof {
        if b > a {
            assert(trim_end(s@.subrange(a as int, b as int)) == s@.subrange(a as int, b as int));
        } else {
            assert(s@.subrange(a as int, a as int) =~= Seq::<char>::empty());
        }
    }
    String::from_str(s.substring_char(a, b))
}

/// Split a comma-separated upstream configuration string into the list of
/// upstream base addresses: entries are trimmed of ASCII whitespace and
/// entries that are left empty are dropped.
pub fn parse_upstream_list(s: &str) -> (r: Vec<String>)
    ensures
        strings_view(r@) == spec_upstream_list(s@),
{
    let n = s.unicode_len();
    let mut pieces: Vec<String> = Vec::new();
    let mut cur: String = String::new();
    let mut i: usize = 0;
    while i < n
        invariant
            i <= n,
            n == s@.len(),
            strings_view(pieces@).push(cur@) =~= spec_split_commas(s@.take(i as int)),
        decreases n - i,
    {
        let c = s.get_char(i);
        proof {
            assert(s@.take(i as int + 1).drop_last() =~= s@.take(i as int));
            assert(s@.take(i as int + 1).last() == s@[i as int]);
        }
        if c == ',' {
            let ghost old_pieces = pieces@;
            let ghost old_cur = cur@;
            pieces.push(cur);
            cur = String::new();
            proof {
                assert(strings_view(pieces@).push(cur@) =~= strings_view(old_pieces).push(
                    old_cur,
                ).push(Seq::<char>::empty()));
            }
        } else {
            let ghost old_cur = cur@;
            cur.append(s.substring_char(i, i + 1));
            proof {
                assert(old_cur + s@.subrange(i as int, i as int + 1) =~= old_cur.push(s@[i as int]));
                let p = spec_split_commas(s@.take(i as int));
                assert(strings_view(pieces@).push(cur@) =~= p.update(
                    p.len() - 1,
                    p.last().push(s@[i as int]),
                ));
            }
        }
        i = i + 1;
    }
    proof {
        assert(s@.take(n as int) =~= s@);
    }
    let mut raw = pieces;
    raw.push(cur);
    let ghost raw_view = strings_view(raw@);
    proof {
        assert(raw_view =~= spec_split_commas(s@));
    }
    let mut out: Vec<String> = Vec::new();
    let mut j: usize = 0;
    let m = raw.len();
    while j < m
        invariant
            j <= m,
            m == raw@.len(),
            raw_view == strings_view(raw@),
            strings_view(out@) =~= spec_trim_keep(raw_view.take(j as int)),
        decreases m - j,
    {
        proof {
            assert(raw_view.take(j as int + 1).drop_last() =~= raw_view.take(j as int));
            assert(raw_view.take(j as int + 1).last() == raw@[j as int]@);
        }
        let t = trim_str(raw[j].as_str());
        if t.as_str().unicode_len() > 0 {
            let ghost old_out = out@;
            out.push(t);
            proof {
                assert(strings_view(out@) =~= strings_view(old_out).push(
                    spec_trim(raw@[j as int]@),
                ));
            }
        }
        j = j + 1;
    }
    proof {
        assert(raw_view.take(m as int) =~= raw_view);
    }
    out
}

/// A decimal digit.
pub open spec fn is_digit(c: char) -> bool {
    48 <= c as u32 <= 57
}

/// The numeric value of a digit character.
pub open spec fn digit_val(c: char) -> int {
    c as u32 - 48
}

/// Every character of `s` is a decimal digit.
pub open spec fn all_digits(s: Seq<char>) -> bool {
    forall|i: int| 0 <= i < s.len() ==> is_digit(s[i])
}

/// The value of `s` read as a decimal numeral, most significant digit first.
pub open spec fn dec_val(s: Seq<char>) -> int
    decreases s.len(),
{
    if s.len() == 0 {
        0
    } else {
        dec_val(s.drop_last()) * 10 + digit_val(s.last())
    }
}

/// The port number named by `s`: an optional leading `+`, then one or more
/// decimal digits whose value fits a `u16`; anything else is no port.
pub open spec fn spec_port(s: Seq<char>) -> Option<u16> {
    let body = if s.len() > 0 && s[0] == '+' {
        s.skip(1)
    } else {
        s
    };
    if body.len() > 0 && all_digits(body) && dec_val(body) <= u16::MAX {
        Some(dec_val(body) as u16)
    } else {
        None
    }
}

proof fn lemma_dec_val_nonneg(s: Seq<char>)
    requires
        all_digits(s),
    ensures
        dec_val(s) >= 0,
    decreases s.len(),
{
    if s.len() > 0 {
        lemma_dec_val_nonneg(s.drop_last());
    }
}

proof fn lemma_dec_val_take_le(s: Seq<char>, j: int)
    requires
        all_digits(s),
        0 <= j <= s.len(),
    ensures
        dec_val(s.take(j)) <= dec_val(s),
    decreases s.len() - j,
{
    if j < s.len() {
        lemma_dec_val_take_le(s, j + 1);
        assert(s.take(j + 1).drop_last() =~= s.take(j));
        assert(all_digits(s.take(j))) by {
            assert(forall|i: int| 0 <= i < j ==> s.take(j)[i] == s[i]);
        }
        lemma_dec_val_nonneg(s.take(j));
    } else {
        assert(s.take(j) =~= s);
    }
}

/// Parse a decimal port number, as the listen-port configuration text is
/// read: `None` exactly when the text is not a port.
pub fn parse_port(s: &str) -> (r: Option<u16>)
    ensures
        r == spec_port(s@),
{
    let n = s.unicode_len();
    let mut i: usize = 0;
    if n > 0 && s.get_char(0) == '+' {
        i = 1;
    }
    let ghost start = i as int;
    let ghost body = s@.skip(start);
    proof {
        assert(s@.skip(0) =~= s@);
    }
    if i >= n {
        proof {
            assert(body.len() == 0);
        }
        return None;
    }
    let mut acc: u32 = 0;
    while i < n
        invariant
            0 <= start <= i <= n,
            n == s@.len(),
            body == s@.skip(start),
            body == if s@.len() > 0 && s@[0] == '+' {
                s@.skip(1)
            } else {
                s@
            },
            body.len() == n - start,
            all_digits(body.take(i - start)),
            acc == dec_val(body.take(i - start)),
            acc <= u16::MAX,
        decreases n - i,
    {
        let c = s.get_char(i);
        let v = c as u32;
        proof {
            assert(i - start < body.len());
            assert(body =~= s@.subrange(start, n as int));
            assert(s@.subrange(start, n as int)[i - start] == s@[i as int]);
            assert(body[i - start] == s@[i as int]);
            assert(body.take(i - start + 1).drop_last() =~= body.take(i - start));
            assert(body.take(i - start + 1).last() == body[i - start]);
        }
        if v < 48 || v > 57 {
            proof {
                assert(!is_digit(body[i - start]));
            }
            return None;
        }
        let d = v - 48;
        let next = acc * 10 + d;
        if next > 65535 {
            proof {
                assert(all_digits(body.take(i - start + 1)));
                if all_digits(body) {
                    lemma_dec_val_take_le(body, i - start + 1);
                }
            }
            return None;
        }
        acc = next;
        i = i + 1;
    }
    proof {
        assert(body.take(n - start) =~= body);
    }
    Some(acc as u16)
}

/// The default listen port for each transport mode: 443 under TLS, 80 in
/// plain HTTP.
pub fn default_port(tls_enabled: bool) -> (r: u16)
    ensures
        r == if tls_enabled {
            443u16
        } else {
            80u16
        },
{
    if tls_enabled {
        443
    } else {
        80
    }
}

/// Everything startup validation has decided: the upstream pool, the port to
/// bind, whether connections go through a TLS handshake, and — under TLS —
/// where the certificate and key material is to be read from.
#[derive(Debug)]
pub struct StartupPlan {
    /// The validated, non-empty upstream pool.
    pub pool: UpstreamPool,
    /// The TCP port to bind.
    pub port: u16,
    /// Whether every accepted connection first performs a TLS handshake.
    pub tls_enabled: bool,
    /// The certificate-chain path; present whenever TLS is enabled.
    pub cert_path: Option<String>,
    /// The private-key path; present whenever TLS is enabled.
    pub key_path: Option<String>,
}

/// Validate the startup configuration, before anything binds: the upstream
/// list must name at least one upstream, the port text (when given) must be a
/// port number, and TLS needs both a certificate path and a key path. Every
/// violation is fatal; nothing may be served on a half-configured listener.
pub fn plan_startup(
    upstreams_text: &str,
    tls_enabled: bool,
    port_text: Option<&str>,
    cert_path: Option<String>,
    key_path: Option<String>,
) -> (r: Result<StartupPlan, StartupError>)
    ensures
        ({
            let list = spec_upstream_list(upstreams_text@);
            let port = match port_text {
                Some(t) => spec_port(t@),
                None => Some(
                    if tls_enabled {
                        443u16
                    } else {
                        80u16
                    },
                ),
            };
            &&& (r is Ok <==> list.len() > 0 && port is Some && (tls_enabled
                ==> cert_path is Some && key_path is Some))
            &&& (r matches Ok(p) ==> {
                &&& p.pool@ == list
                &&& p.pool.wf()
                &&& Some(p.port) == port
                &&& p.tls_enabled == tls_enabled
                &&& p.cert_path == cert_path
                &&& p.key_path == key_path
            })
            &&& (r matches Err(e) ==> e == if list.len() == 0 {
                StartupError::EmptyUpstreamList
            } else if port is None {
                StartupError::InvalidPort
            } else if cert_path is None {
                StartupError::MissingCertPath
            } else {
                StartupError::MissingKeyPath
            })
        }),
{
    let servers = parse_upstream_list(upstreams_text);
    let pool = match UpstreamPool::new(servers) {
        Ok(p) => p,
        Err(e) => {
            return Err(e);
        },
    };
    let port = match port_text {
        Some(t) => match parse_port(t) {
            Some(p) => p,
            None => {
                return Err(StartupError::InvalidPort);
            },
        },
        None => default_port(tls_enabled),
    };
    if tls_enabled {
        if cert_path.is_none() {
            return Err(StartupError::MissingCertPath);
        }
        if key_path.is_none() {
            return Err(StartupError::MissingKeyPath);
        }
    }
    Ok(StartupPlan { pool, port, tls_enabled, cert_path, key_path })
}

} // verus!
