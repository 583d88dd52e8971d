//! The client configuration and request-target assembly.
//!
//! A [`Client`] holds the parsed parts of the base address, the held
//! credentials and the targeted protocol version. From those,
//! [`Client::build_url`] assembles the full request target for one named
//! operation: base, operation, credential fragment and encoded query.
//! The credential fragment is version-gated: targets from 1.13.0 on get
//! a salted one-way-hashed token with a fresh random salt per call;
//! older targets get the legacy plaintext pair.

use vstd::prelude::*;
use vstd::string::StringExecFns;

use crate::error::{Error, UrlError};
use crate::numeral::dec_of;
use crate::query::{encoded, IntoArg, Query};
use crate::search::SearchPage;
use crate::version::{version_chars, version_le, Version};

verus! {

/// The length of the random salt sampled for each hashed-token
/// credential fragment. The protocol asks for at least six characters.
pub const SALT_SIZE: usize = 36;

/// The lower-hex MD5 digest of a byte string: sixteen bytes rendered as
/// thirty-two lowercase hexadecimal characters, a function of the input
/// bytes alone.
pub uninterp spec fn md5_hex_of(data: Seq<u8>) -> Seq<char>;

/// Relies on md5::compute and the lower-hex form of its digest: the
/// digest of a byte string depends on those bytes alone, and renders as
/// exactly thirty-two lowercase hexadecimal characters.
#[verifier::external_body]
fn md5_hex(data: &[u8]) -> (r: String)
    ensures
        r@ == md5_hex_of(data@),
        r@.len() == 32,
{
    let digest = md5::compute(data);
    format!("{:x}", digest)
}

/// Whether `c` may appear in a salt: an ASCII letter or digit.
pub open spec fn is_salt_char(c: char) -> bool {
    ('A' <= c && c <= 'Z') || ('a' <= c && c <= 'z') || ('0' <= c && c <= '9')
}

/// Relies on rand's Alphanumeric distribution through
/// DistString::sample_string: a string of exactly `len` characters, each
/// drawn from the ASCII letters and digits. Nothing relates one sample
/// to another.
#[verifier::external_body]
fn random_salt(len: usize) -> (r: String)
    ensures
        r@.len() == len as nat,
        forall|i: int| 0 <= i < r@.len() ==> is_salt_char(#[trigger] r@[i]),
{
    rand::distributions::DistString::sample_string(
        &rand::distributions::Alphanumeric,
        &mut rand::thread_rng(),
        len,
    )
}

/// The parts a base address parses to: scheme, host (when the address
/// names one), port (when explicit) and path — or nothing when the
/// address does not parse. A function of the address alone.
pub uninterp spec fn url_parts_of(s: Seq<char>) -> Option<
    (Seq<char>, Option<Seq<char>>, Option<u16>, Seq<char>),
>;

/// Relies on url::Url::parse and the accessors scheme, host_str, port
/// and path: parsing is a function of the address alone; an address
/// without a recognizable scheme does not parse.
#[verifier::external_body]
fn parse_base_url(s: &str) -> (r: Option<(String, Option<String>, Option<u16>, String)>)
    ensures
        r is Some <==> url_parts_of(s@) is Some,
        r matches Some(p) ==> url_parts_of(s@) matches Some(q) && p.0@ == q.0 && (
        p.1 matches Some(h) <==> q.1 is Some) && (p.1 matches Some(h) ==> h@ == q.1->0) && p.2
            == q.2 && p.3@ == q.3,
{
    match url::Url::parse(s) {
        Ok(u) => Some(
            (
                u.scheme().to_string(),
                u.host_str().map(|h| h.to_string()),
                u.port(),
                u.path().to_string(),
            ),
        ),
        Err(_) => None,
    }
}

/// `s` with every trailing slash removed.
pub open spec fn trim_slashes(s: Seq<char>) -> Seq<char>
    decreases s.len(),
{
    if s.len() > 0 && s.last() == '/' {
        trim_slashes(s.drop_last())
    } else {
        s
    }
}

fn trim_trailing_slashes(s: String) -> (r: String)
    ensures
        r@ == trim_slashes(s@),
{
    let mut len = s.unicode_len();
    proof {
        assert(s@.take(len as int) =~= s@);
    }
    while len > 0 && s.get_char(len - 1) == '/'
        invariant
            len <= s@.len(),
            trim_slashes(s@) == trim_slashes(s@.take(len as int)),
        decreases len,
    {
        proof {
            assert(s@.take(len as int).last() == s@[len - 1]);
            assert(s@.take(len as int).drop_last() =~= s@.take(len - 1));
        }
        len -= 1;
    }
    let r = s.as_str().substring_char(0, len);
    proof {
        assert(s@.take(len as int) =~= s@.subrange(0, len as int));
        if len > 0 {
            assert(trim_slashes(s@.take(len as int)) == s@.take(len as int));
        } else {
            assert(s@.take(0) =~= Seq::<char>::empty());
        }
    }
    r.to_owned()
}

/// The salted token for a password and salt: the lower-hex digest of the
/// UTF-8 bytes of the password followed by the salt.
pub open spec fn spec_token(password: Seq<char>, salt: Seq<char>) -> Seq<char> {
    md5_hex_of(vstd::utf8::encode_utf8(password + salt))
}

/// Whether `s` is an acceptable salt: the fixed length, letters and
/// digits only.
pub open spec fn salt_ok(s: Seq<char>) -> bool {
    s.len() == SALT_SIZE && forall|i: int| 0 <= i < s.len() ==> is_salt_char(#[trigger] s[i])
}

/// The legacy plaintext credential fragment.
pub open spec fn legacy_fragment(user: Seq<char>, password: Seq<char>) -> Seq<char> {
    "u="@ + user + "&p="@ + password
}

/// The salted-token credential fragment.
pub open spec fn token_fragment(user: Seq<char>, token: Seq<char>, salt: Seq<char>) -> Seq<char> {
    "u="@ + user + "&t="@ + token + "&s="@ + salt
}

/// The fields every credential fragment ends with: the targeted version,
/// the client name and the response format.
pub open spec fn auth_suffix(ver: Version) -> Seq<char> {
    "&v="@ + version_chars(ver) + "&c=sunk&f=json"@
}

/// What the derived credential fragment looks like, gated on the
/// targeted version: from 1.13.0 on, the salted-token form under some
/// acceptable salt, never the plaintext password; below 1.13.0, exactly
/// the legacy plaintext form, never a token or salt.
pub open spec fn auth_url_ok(
    user: Seq<char>,
    password: Seq<char>,
    ver: Version,
    out: Seq<char>,
) -> bool {
    if version_le(Version(1, 13, 0), ver) {
        exists|salt: Seq<char>|
            salt_ok(salt) && out == token_fragment(user, spec_token(password, salt), salt)
                + auth_suffix(ver)
    } else {
        out == legacy_fragment(user, password) + auth_suffix(ver)
    }
}

/// The held credentials: a name and a password, kept only for the
/// client's lifetime and never persisted.
#[derive(Debug)]
pub struct SubsonicAuth {
    /// The account name.
    pub user: String,
    /// The account password.
    pub password: String,
}

impl SubsonicAuth {
    /// Holds a credential pair.
    pub fn new(user: &str, password: &str) -> (r: SubsonicAuth)
        ensures
            r.user@ == user@,
            r.password@ == password@,
    {
        SubsonicAuth { user: user.to_owned(), password: password.to_owned() }
    }

    /// Derives the credential fragment for the targeted version: the
    /// salted-token form with a freshly sampled salt from 1.13.0 on, the
    /// legacy plaintext form below, always followed by the version,
    /// client-name and format fields. Never fails.
    pub fn to_url(&self, ver: Version) -> (r: String)
        ensures
            auth_url_ok(self.user@, self.password@, ver, r@),
    {
        let mut out = String::from_str("u=");
        out.append(self.user.as_str());
        if ver.at_least(&Version(1, 13, 0)) {
            let salt = random_salt(SALT_SIZE);
            let pre = self.password.clone().concat(salt.as_str());
            let token = md5_hex(pre.as_str().as_bytes());
            out.append("&t=");
            out.append(token.as_str());
            out.append("&s=");
            out.append(salt.as_str());
            out.append("&v=");
            out.append(ver.to_string().as_str());
            out.append("&c=sunk&f=json");
            proof {
                reveal_strlit("u=");
                reveal_strlit("&t=");
                reveal_strlit("&s=");
                reveal_strlit("&v=");
                reveal_strlit("&c=sunk&f=json");
                assert(salt_ok(salt@));
                assert(token@ == spec_token(self.password@, salt@));
                assert(out@ =~= token_fragment(self.user@, spec_token(self.password@, salt@), salt@)
                    + auth_suffix(ver));
            }
        } else {
            out.append("&p=");
            out.append(self.password.as_str());
            out.append("&v=");
            out.append(ver.to_string().as_str());
            out.append("&c=sunk&f=json");
            proof {
                reveal_strlit("u=");
                reveal_strlit("&p=");
                reveal_strlit("&v=");
                reveal_strlit("&c=sunk&f=json");
                assert(out@ =~= legacy_fragment(self.user@, self.password@) + auth_suffix(ver));
            }
        }
        out
    }
}

/// A client configuration for one server: the parsed base address, the
/// held credentials and the version pair. It is an explicit value; every
/// request-building function reads it and none mutates it. Changing the
/// credentials or the targeted version while calls built from this value
/// are still in flight is not supported.
#[derive(Debug)]
pub struct Client {
    /// The scheme of the base address.
    pub scheme: String,
    /// The host of the base address.
    pub host: String,
    /// The explicit port of the base address, when it names one.
    pub port: Option<u16>,
    /// The path of the base address, trailing slashes removed.
    pub path: String,
    /// The held credentials.
    pub auth: SubsonicAuth,
    /// The newest protocol version this client implements.
    pub ver: Version,
    /// The protocol version the client targets; gates the
    /// authentication scheme.
    pub target_ver: Version,
}

/// The request-target prefix of a client: scheme, host, optional port,
/// path and the protocol mount point.
pub open spec fn base_prefix(c: Client) -> Seq<char> {
    c.scheme@ + "://"@ + c.host@ + (match c.port {
        Some(p) => seq![':'] + dec_of(p as nat),
        None => Seq::<char>::empty(),
    }) + c.path@ + "/rest/"@
}

/// What a built request target looks like: the client's base prefix,
/// the operation name, one derived credential fragment, and the encoded
/// query.
pub open spec fn built_url_ok(c: Client, operation: Seq<char>, args: Seq<
    (Seq<char>, Option<Seq<char>>),
>, out: Seq<char>) -> bool {
    exists|frag: Seq<char>|
        auth_url_ok(c.auth.user@, c.auth.password@, c.target_ver, frag) && out == base_prefix(c)
            + operation + seq!['?'] + frag + seq!['&'] + encoded(args)
}

impl Client {
    /// Builds a client for the server at `url`, holding the given
    /// credentials and targeting version 1.14.0. Fails exactly when the
    /// address does not parse, or parses without naming a host.
    pub fn new(url: &str, user: &str, password: &str) -> (r: Result<Client, Error>)
        ensures
            match r {
                Ok(c) => {
                    &&& url_parts_of(url@) matches Some(q)
                    &&& q.1 matches Some(h)
                    &&& c.scheme@ == q.0
                    &&& c.host@ == h
                    &&& c.port == q.2
                    &&& c.path@ == trim_slashes(q.3)
                    &&& c.auth.user@ == user@
                    &&& c.auth.password@ == password@
                    &&& c.ver == Version(1, 14, 0)
                    &&& c.target_ver == Version(1, 14, 0)
                },
                Err(e) => {
                    ||| (url_parts_of(url@) is None && e == Error::Url(UrlError::ParsingError))
                    ||| (url_parts_of(url@) matches Some(q) && q.1 is None && e == Error::Url(
                        UrlError::Address,
                    ))
                },
            },
    {
        match parse_base_url(url) {
            None => Err(Error::Url(UrlError::ParsingError)),
            Some((scheme, host, port, path)) => {
                match host {
                    None => Err(Error::Url(UrlError::Address)),
                    Some(host) => Ok(
                        Client {
                            scheme,
                            host,
                            port,
                            path: trim_trailing_slashes(path),
                            auth: SubsonicAuth::new(user, password),
                            ver: Version(1, 14, 0),
                            target_ver: Version(1, 14, 0),
                        },
                    ),
                }
            },
        }
    }

    /// Returns the client adjusted to target `ver`. Targets before
    /// 1.13.0 fall back to the legacy credential scheme.
    pub fn with_target(self, ver: Version) -> (r: Client)
        ensures
            r.scheme == self.scheme,
            r.host == self.host,
            r.port == self.port,
            r.path == self.path,
            r.auth == self.auth,
            r.ver == self.ver,
            r.target_ver == ver,
    {
        let mut cli = self;
        cli.target_ver = ver;
        cli
    }

    /// Assembles the full request target for one named operation: the
    /// base prefix, the operation, a freshly derived credential
    /// fragment, and the encoded query. Never fails: the base address
    /// was already checked when the client was built.
    pub fn build_url(&self, query: &str, args: Query) -> (r: Result<String, Error>)
        ensures
            r matches Ok(u) && built_url_ok(*self, query@, args@, u@),
    {
        let mut url = self.scheme.clone();
        url.append("://");
        url.append(self.host.as_str());
        match self.port {
            Some(p) => {
                url.append(":");
                url.append(crate::numeral::u64_to_string(p as u64).as_str());
            },
            None => {},
        }
        url.append(self.path.as_str());
        url.append("/rest/");
        url.append(query);
        url.append("?");
        let frag = self.auth.to_url(self.target_ver);
        url.append(frag.as_str());
        url.append("&");
        url.append(args.to_string().as_str());
        proof {
            reveal_strlit("://");
            reveal_strlit(":");
            reveal_strlit("/rest/");
            reveal_strlit("?");
            reveal_strlit("&");
            assert(url@ =~= base_prefix(*self) + query@ + seq!['?'] + frag@ + seq!['&'] + encoded(
                args@,
            ));
        }
        Ok(url)
    }

    /// The ordered arguments of a three-way search: the query text, then
    /// the count and offset of each cursor, in the documented order.
    pub fn search_args(
        query: &str,
        artist_page: SearchPage,
        album_page: SearchPage,
        song_page: SearchPage,
    ) -> (q: Query)
        ensures
            q@ =~= seq![
                ("query"@, Some(query@)),
                ("artistCount"@, Some(dec_of(artist_page.count as nat))),
                ("artistOffset"@, Some(dec_of(artist_page.offset as nat))),
                ("albumCount"@, Some(dec_of(album_page.count as nat))),
                ("albumOffset"@, Some(dec_of(album_page.offset as nat))),
                ("songCount"@, Some(dec_of(song_page.count as nat))),
                ("songOffset"@, Some(dec_of(song_page.offset as nat))),
            ],
    {
        let mut q = Query::with("query", query);
        q.arg("artistCount", artist_page.count);
        q.arg("artistOffset", artist_page.offset);
        q.arg("albumCount", album_page.count);
        q.arg("albumOffset", album_page.offset);
        q.arg("songCount", song_page.count);
        q.arg("songOffset", song_page.offset);
        q.build()
    }

    /// The arguments of a lyrics search: the artist and title, either of
    /// which may be absent.
    pub fn lyrics_args(artist: Option<&str>, title: Option<&str>) -> (q: Query)
        ensures
            q@ =~= seq![
                ("artist"@, artist.arg_view()),
                ("title"@, title.arg_view()),
            ],
    {
        let mut q = Query::with("artist", artist);
        q.arg("title", title);
        q.build()
    }

    /// The argument of a starred-content listing: the music folder to
    /// look in, when one is named.
    pub fn starred_args(folder_id: Option<usize>) -> (q: Query)
        ensures
            q@ =~= seq![("musicFolderId"@, folder_id.arg_view())],
    {
        Query::with("musicFolderId", folder_id)
    }
}

} // verus!
