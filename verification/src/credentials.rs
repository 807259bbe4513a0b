//! Robot API credentials and the configuration file that may hold them.

use vstd::prelude::*;

use base64::Engine as _;

use crate::error::{Error, ErrorView, Result};
use crate::text::{push_char, push_octal3, push_str, same_text, IntoText};


verus! {

/// Environment variable holding the Robot webservice username.
pub const USER_ENV: &'static str = "HETZNER_ROBOT_USER";

/// Environment variable holding the Robot webservice password.
pub const PASSWORD_ENV: &'static str = "HETZNER_ROBOT_PASSWORD";

/// Environment variable overriding the config file path.
pub const CONFIG_ENV: &'static str = "METALCTL_CONFIG";

// ---------------------------------------------------------------------------
// Outside functions
// ---------------------------------------------------------------------------

/// The character at position `n` (`n < 64`) of the standard base64
/// alphabet `A-Z a-z 0-9 + /`.
pub open spec fn base64_char(n: int) -> char {
    if n < 26 {
        (n + 65) as char
    } else if n < 52 {
        (n + 71) as char
    } else if n < 62 {
        (n - 4) as char
    } else if n == 62 {
        '+'
    } else {
        '/'
    }
}

/// Standard base64 with `=` padding: each group of three bytes becomes four
/// characters of six bits each; a last group of one or two bytes becomes two
/// or three characters, padded with `=` to four.
pub open spec fn base64_standard(bytes: Seq<u8>) -> Seq<char>
    decreases bytes.len(),
{
    let b0: int = if bytes.len() > 0 { bytes[0] as int } else { 0 };
    let b1: int = if bytes.len() > 1 { bytes[1] as int } else { 0 };
    let b2: int = if bytes.len() > 2 { bytes[2] as int } else { 0 };
    if bytes.len() == 0 {
        Seq::empty()
    } else if bytes.len() == 1 {
        seq![base64_char(b0 / 4), base64_char((b0 % 4) * 16), '=', '=']
    } else if bytes.len() == 2 {
        seq![base64_char(b0 / 4), base64_char((b0 % 4) * 16 + b1 / 16), base64_char((b1 % 16) * 4), '=']
    } else {
        seq![
            base64_char(b0 / 4),
            base64_char((b0 % 4) * 16 + b1 / 16),
            base64_char((b1 % 16) * 4 + b2 / 64),
            base64_char(b2 % 64),
        ] + base64_standard(bytes.skip(3))
    }
}

/// `base64::engine::general_purpose::STANDARD.encode(bytes)`.
///
/// Claims that the result is the standard base64 encoding of `bytes` as
/// stated above, which the `STANDARD` engine (standard alphabet, padding)
/// produces, and that, as `base64::encoded_len` computes it with padding, it
/// has four characters per started group of three bytes. The length bound excludes the inputs on which
/// `encoded_len` overflows and `encode` panics.
#[verifier::external_body]
fn base64_encode(bytes: &[u8]) -> (encoded: String)
    requires
        bytes@.len() <= isize::MAX,
    ensures
        encoded@ == base64_standard(bytes@),
        encoded@.len() == 4 * ((bytes@.len() + 2) / 3),
{
    base64::engine::general_purpose::STANDARD.encode(bytes)
}

/// Names what `<str as Debug>::fmt` writes for a text: the text in double
/// quotes, with quotes, backslashes and characters that are not printable
/// escaped.
pub uninterp spec fn debug_quoted(text: Seq<char>) -> Seq<char>;

/// A character that `<str as Debug>::fmt` writes as itself: printable ASCII
/// other than `"` and `\`.
pub open spec fn is_plain_char(c: char) -> bool {
    ' ' <= c <= '~' && c != '"' && c != '\\'
}

/// Whether every character of `t` is plain.
pub open spec fn is_plain_text(t: Seq<char>) -> bool {
    forall|i: int| 0 <= i < t.len() ==> is_plain_char(#[trigger] t[i])
}

/// The text `t` between double quotes.
pub open spec fn plain_quoted(t: Seq<char>) -> Seq<char> {
    seq!['"'] + t + seq!['"']
}

/// That an optional text, when present and plain, is rendered as itself
/// between double quotes.
pub open spec fn quotes_plainly(o: Option<Seq<char>>) -> bool {
    match o {
        Some(t) => is_plain_text(t) ==> debug_quoted(t) == plain_quoted(t),
        None => true,
    }
}

/// `format!("{text:?}")` for a string slice (`<str as Debug>::fmt`).
///
/// Claims that the result is the named rendering of `text`, and that a text
/// made of plain characters is written as itself between double quotes.
#[verifier::external_body]
fn quoted(text: &str) -> (q: String)
    ensures
        q@ == debug_quoted(text@),
        is_plain_text(text@) ==> q@ == plain_quoted(text@),
{
    format!("{text:?}")
}

// ---------------------------------------------------------------------------
// Credentials
// ---------------------------------------------------------------------------

/// HTTP Basic credentials for the Hetzner Robot API.
///
/// The password is never rendered: [`Credentials::debug_string`] redacts it.
#[derive(Clone)]
pub struct Credentials {
    username: String,
    password: String,
}

/// `a ++ ":" ++ b`, the text that Basic authentication encodes.
pub open spec fn basic_pair(user: Seq<char>, password: Seq<char>) -> Seq<char> {
    user + seq![':'] + password
}

/// The `Authorization` header value for `user` and `password`.
pub open spec fn basic_authorization(user: Seq<char>, password: Seq<char>) -> Seq<char> {
    "Basic "@ + base64_standard(vstd::utf8::encode_utf8(basic_pair(user, password)))
}

/// Whether the `user:password` text fits in one string (at most `isize::MAX`
/// bytes); on longer input building the header panics.
pub open spec fn header_fits(user: Seq<char>, password: Seq<char>) -> bool {
    vstd::utf8::encode_utf8(user).len() + 1 + vstd::utf8::encode_utf8(password).len() <= isize::MAX
}

/// The `Debug` rendering of credentials: the username, and the password redacted.
pub open spec fn credentials_debug(user: Seq<char>) -> Seq<char> {
    "Credentials { username: "@ + debug_quoted(user) + ", password: \"<redacted>\" }"@
}

proof fn lemma_utf8_concat(a: Seq<char>, b: Seq<char>)
    ensures
        vstd::utf8::encode_utf8(a + b) == vstd::utf8::encode_utf8(a) + vstd::utf8::encode_utf8(b),
    decreases a.len(),
{
    if a.len() > 0 {
        lemma_utf8_concat(a.drop_first(), b);
        assert((a + b).drop_first() =~= a.drop_first() + b);
        assert((a + b)[0] == a[0]);
        assert(vstd::utf8::encode_utf8(a + b) =~= vstd::utf8::encode_utf8(a) + vstd::utf8::encode_utf8(b));
    } else {
        assert(a + b =~= b);
    }
}

proof fn lemma_utf8_colon()
    ensures
        vstd::utf8::encode_utf8(seq![':']).len() == 1,
{
    let s = seq![':'];
    assert(s.drop_first() =~= Seq::<char>::empty());
    assert(vstd::utf8::encode_utf8(s.drop_first()).len() == 0);
    assert(s[0] == ':');
    assert((':' as u32) == 58);
    assert(vstd::utf8::has_width_1_encoding(58u32));
    assert(vstd::utf8::encode_scalar(58u32).len() == 1);
}

impl Credentials {
    /// The username.
    pub closed spec fn user(&self) -> Seq<char> {
        self.username@
    }

    /// The password.
    pub closed spec fn pass(&self) -> Seq<char> {
        self.password@
    }

    /// Creates credentials from a username and password.
    ///
    /// # Errors
    ///
    /// Returns [`Error::InvalidCredentials`] if either value is empty.
    pub fn new<U: IntoText, P: IntoText>(username: U, password: P) -> (r: Result<Self>)
        ensures
            r is Ok <==> username.text().len() > 0 && password.text().len() > 0,
            r matches Ok(c) ==> c.user() == username.text() && c.pass() == password.text(),
            r matches Err(e) ==> e@ == ErrorView::InvalidCredentials,
    {
        let username = username.into_text();
        let password = password.into_text();
        if username.as_str().is_empty() || password.as_str().is_empty() {
            return Err(Error::InvalidCredentials);
        }
        Ok(Credentials { username, password })
    }

    /// Builds credentials from the values of the `HETZNER_ROBOT_USER` and
    /// `HETZNER_ROBOT_PASSWORD` environment variables (an unset variable reads
    /// as empty).
    ///
    /// # Errors
    ///
    /// Returns [`Error::MissingCredentials`] if either value is empty.
    pub fn from_env_values(username: String, password: String) -> (r: Result<Self>)
        ensures
            r is Ok <==> username@.len() > 0 && password@.len() > 0,
            r matches Ok(c) ==> c.user() == username@ && c.pass() == password@,
            r matches Err(e) ==> e@ == ErrorView::MissingCredentials,
    {
        if username.as_str().is_empty() || password.as_str().is_empty() {
            return Err(Error::MissingCredentials);
        }
        Self::new(username, password)
    }

    /// Resolves credentials from the first source that provides each value
    /// with a non-empty text: CLI flags, then the environment, then a config
    /// file. An empty value counts as not provided.
    ///
    /// # Errors
    ///
    /// Returns [`Error::MissingCredentials`] if either value is absent or
    /// empty in every source.
    pub fn resolve(sources: CredentialSources) -> (r: Result<Self>)
        ensures
            match (resolved_user(sources@), resolved_password(sources@)) {
                (Some(u), Some(p)) => r matches Ok(c) && c.user() == u && c.pass() == p,
                _ => r matches Err(e) && e@ == ErrorView::MissingCredentials,
            },
    {
        let config = match sources.config {
            Some(c) => c,
            None => ConfigCredentials { user: None, password: None },
        };
        let username = match given(sources.flag_user) {
            Some(u) => Some(u),
            None => match given(sources.env_user) {
                Some(u) => Some(u),
                None => given(config.user),
            },
        };
        let password = match given(sources.flag_password) {
            Some(p) => Some(p),
            None => match given(sources.env_password) {
                Some(p) => Some(p),
                None => given(config.password),
            },
        };
        match (username, password) {
            (Some(u), Some(p)) => Self::new(u, p),
            _ => Err(Error::MissingCredentials),
        }
    }

    /// Whether the header for these credentials can be built.
    pub open spec fn fits(&self) -> bool {
        header_fits(self.user(), self.pass())
    }

    /// Whether the header for these credentials can be built: the
    /// `user:password` text is at most `isize::MAX` bytes long.
    pub fn header_fits(&self) -> (b: bool)
        ensures
            b == self.fits(),
    {
        let u = self.username.as_str().as_bytes().len();
        let p = self.password.as_str().as_bytes().len();
        (u as u128) + 1 + (p as u128) <= (isize::MAX as u128)
    }

    /// Returns the value for the HTTP `Authorization` header.
    pub fn authorization(&self) -> (header: String)
        requires
            self.fits(),
        ensures
            header@ == basic_authorization(self.user(), self.pass()),
    {
        let mut raw = String::new();
        push_str(&mut raw, self.username.as_str());
        push_char(&mut raw, ':');
        push_str(&mut raw, self.password.as_str());
        proof {
            assert(raw@ =~= basic_pair(self.user(), self.pass()));
            lemma_utf8_concat(self.user(), seq![':']);
            lemma_utf8_concat(self.user() + seq![':'], self.pass());
            lemma_utf8_colon();
        }
        let encoded = base64_encode(raw.as_str().as_bytes());
        let mut header = String::new();
        push_str(&mut header, "Basic ");
        push_str(&mut header, encoded.as_str());
        header
    }

    /// The `Debug`-style rendering of the credentials, with the password
    /// redacted; a username of plain characters is written as itself between
    /// double quotes.
    pub fn debug_string(&self) -> (s: String)
        ensures
            s@ == credentials_debug(self.user()),
            is_plain_text(self.user()) ==> s@ == "Credentials { username: \""@ + self.user()
                + "\", password: \"<redacted>\" }"@,
    {
        let mut s = String::new();
        push_str(&mut s, "Credentials { username: ");
        let q = quoted(self.username.as_str());
        push_str(&mut s, q.as_str());
        push_str(&mut s, ", password: \"<redacted>\" }");
        proof {
            if is_plain_text(self.user()) {
                reveal_strlit("Credentials { username: ");
                reveal_strlit(", password: \"<redacted>\" }");
                reveal_strlit("Credentials { username: \"");
                reveal_strlit("\", password: \"<redacted>\" }");
                assert(s@ =~= "Credentials { username: \""@ + self.user()
                    + "\", password: \"<redacted>\" }"@);
            }
        }
        s
    }
}

// ---------------------------------------------------------------------------
// Credential sources
// ---------------------------------------------------------------------------

/// Credentials loaded from a config file.
///
/// The password is redacted in [`ConfigCredentials::debug_string`].
#[derive(Clone)]
pub struct ConfigCredentials {
    /// Username, if present in the file.
    pub user: Option<String>,
    /// Password, if present in the file.
    pub password: Option<String>,
}

/// The model of [`ConfigCredentials`].
pub struct ConfigView {
    pub user: Option<Seq<char>>,
    pub password: Option<Seq<char>>,
}

impl View for ConfigCredentials {
    type V = ConfigView;

    open spec fn view(&self) -> ConfigView {
        ConfigView { user: crate::transport::opt_view(self.user), password: crate::transport::opt_view(self.password) }
    }
}

impl Default for ConfigCredentials {
    fn default() -> (c: Self)
        ensures
            c.user is None && c.password is None,
    {
        ConfigCredentials { user: None, password: None }
    }
}

/// Credential values from every source, in precedence order.
///
/// [`Credentials::resolve`] takes the first non-empty value from `flag_*`,
/// then `env_*`, then `config`. Password fields are redacted in
/// [`CredentialSources::debug_string`].
#[derive(Clone)]
pub struct CredentialSources {
    /// Username from a CLI flag.
    pub flag_user: Option<String>,
    /// Password from a CLI flag (for example read from `--password-file`).
    pub flag_password: Option<String>,
    /// Username from the environment.
    pub env_user: Option<String>,
    /// Password from the environment.
    pub env_password: Option<String>,
    /// Credentials loaded from a config file.
    pub config: Option<ConfigCredentials>,
}

/// The model of [`CredentialSources`].
pub struct SourcesView {
    pub flag_user: Option<Seq<char>>,
    pub flag_password: Option<Seq<char>>,
    pub env_user: Option<Seq<char>>,
    pub env_password: Option<Seq<char>>,
    pub config: Option<ConfigView>,
}

impl View for CredentialSources {
    type V = SourcesView;

    open spec fn view(&self) -> SourcesView {
        SourcesView {
            flag_user: crate::transport::opt_view(self.flag_user),
            flag_password: crate::transport::opt_view(self.flag_password),
            env_user: crate::transport::opt_view(self.env_user),
            env_password: crate::transport::opt_view(self.env_password),
            config: match self.config {
                Some(c) => Some(c@),
                None => None,
            },
        }
    }
}

impl Default for CredentialSources {
    fn default() -> (s: Self)
        ensures
            s.flag_user is None && s.flag_password is None && s.env_user is None
                && s.env_password is None && s.config is None,
    {
        CredentialSources {
            flag_user: None,
            flag_password: None,
            env_user: None,
            env_password: None,
            config: None,
        }
    }
}

/// Whether an optional value is provided: present and not empty.
pub open spec fn is_given(o: Option<Seq<char>>) -> bool {
    o matches Some(v) && v.len() > 0
}

/// The first provided (present and non-empty) value of three, in order.
pub open spec fn first_given(
    a: Option<Seq<char>>,
    b: Option<Seq<char>>,
    c: Option<Seq<char>>,
) -> Option<Seq<char>> {
    if is_given(a) {
        a
    } else if is_given(b) {
        b
    } else if is_given(c) {
        c
    } else {
        None
    }
}

/// `o` when it is provided, otherwise nothing.
fn given(o: Option<String>) -> (r: Option<String>)
    ensures
        crate::transport::opt_view(r) == if is_given(crate::transport::opt_view(o)) {
            crate::transport::opt_view(o)
        } else {
            None
        },
{
    match o {
        Some(v) => if v.as_str().is_empty() {
            None
        } else {
            Some(v)
        },
        None => None,
    }
}

/// The username that resolution picks from `s`.
pub open spec fn resolved_user(s: SourcesView) -> Option<Seq<char>> {
    first_given(
        s.flag_user,
        s.env_user,
        match s.config {
            Some(c) => c.user,
            None => None,
        },
    )
}

/// The password that resolution picks from `s`.
pub open spec fn resolved_password(s: SourcesView) -> Option<Seq<char>> {
    first_given(
        s.flag_password,
        s.env_password,
        match s.config {
            Some(c) => c.password,
            None => None,
        },
    )
}

/// `Debug` rendering of an optional text.
pub open spec fn debug_option(o: Option<Seq<char>>) -> Seq<char> {
    match o {
        Some(t) => "Some("@ + debug_quoted(t) + ")"@,
        None => "None"@,
    }
}

/// `Debug` rendering of an optional secret: only whether it is present.
pub open spec fn debug_redacted(o: Option<Seq<char>>) -> Seq<char> {
    match o {
        Some(_) => "Some(\"<redacted>\")"@,
        None => "None"@,
    }
}

/// The `Debug` rendering of config credentials.
pub open spec fn config_debug(c: ConfigView) -> Seq<char> {
    "ConfigCredentials { user: "@ + debug_option(c.user) + ", password: "@ + debug_redacted(
        c.password,
    ) + " }"@
}

/// The `Debug` rendering of credential sources.
pub open spec fn sources_debug(s: SourcesView) -> Seq<char> {
    "CredentialSources { flag_user: "@ + debug_option(s.flag_user) + ", flag_password: "@
        + debug_redacted(s.flag_password) + ", env_user: "@ + debug_option(s.env_user)
        + ", env_password: "@ + debug_redacted(s.env_password) + ", config: "@ + match s.config {
        Some(c) => "Some("@ + config_debug(c) + ")"@,
        None => "None"@,
    } + " }"@
}

fn push_debug_option(s: &mut String, o: &Option<String>)
    ensures
        final(s)@ == old(s)@ + debug_option(crate::transport::opt_view(*o)),
        quotes_plainly(crate::transport::opt_view(*o)),
{
    match o {
        Some(t) => {
            push_str(s, "Some(");
            let q = quoted(t.as_str());
            push_str(s, q.as_str());
            push_str(s, ")");
        },
        None => push_str(s, "None"),
    }
    assert(s@ =~= old(s)@ + debug_option(crate::transport::opt_view(*o)));
}

fn push_debug_redacted(s: &mut String, o: &Option<String>)
    ensures
        final(s)@ == old(s)@ + debug_redacted(crate::transport::opt_view(*o)),
{
    match o {
        Some(_) => push_str(s, "Some(\"<redacted>\")"),
        None => push_str(s, "None"),
    }
}

impl ConfigCredentials {
    /// The `Debug`-style rendering, with the password redacted; a username of
    /// plain characters is written as itself between double quotes.
    pub fn debug_string(&self) -> (s: String)
        ensures
            s@ == config_debug(self@),
            quotes_plainly(self@.user),
    {
        let mut s = String::new();
        push_str(&mut s, "ConfigCredentials { user: ");
        push_debug_option(&mut s, &self.user);
        push_str(&mut s, ", password: ");
        push_debug_redacted(&mut s, &self.password);
        push_str(&mut s, " }");
        assert(s@ =~= config_debug(self@));
        s
    }
}

impl CredentialSources {
    /// The `Debug`-style rendering, with every password redacted; usernames of
    /// plain characters are written as themselves between double quotes.
    pub fn debug_string(&self) -> (s: String)
        ensures
            s@ == sources_debug(self@),
            quotes_plainly(self@.flag_user),
            quotes_plainly(self@.env_user),
            self@.config matches Some(c) ==> quotes_plainly(c.user),
    {
        let mut s = String::new();
        push_str(&mut s, "CredentialSources { flag_user: ");
        push_debug_option(&mut s, &self.flag_user);
        push_str(&mut s, ", flag_password: ");
        push_debug_redacted(&mut s, &self.flag_password);
        push_str(&mut s, ", env_user: ");
        push_debug_option(&mut s, &self.env_user);
        push_str(&mut s, ", env_password: ");
        push_debug_redacted(&mut s, &self.env_password);
        push_str(&mut s, ", config: ");
        match &self.config {
            Some(c) => {
                push_str(&mut s, "Some(");
                let inner = c.debug_string();
                push_str(&mut s, inner.as_str());
                push_str(&mut s, ")");
            },
            None => push_str(&mut s, "None"),
        }
        push_str(&mut s, " }");
        assert(s@ =~= sources_debug(self@));
        s
    }
}


// ---------------------------------------------------------------------------
// Laws
// ---------------------------------------------------------------------------

/// Each value comes from the highest-priority source that provides it with a
/// non-empty text: a flag hides the environment and the file, the environment
/// hides the file, and an empty value hides nothing. A resolved value is never
/// empty.
pub proof fn law_resolution_precedence(s: SourcesView)
    ensures
        (s.flag_user matches Some(v) && v.len() > 0) ==> resolved_user(s) == s.flag_user,
        !(s.flag_user matches Some(v) && v.len() > 0) && (s.env_user matches Some(v) && v.len() > 0) ==> resolved_user(s) == s.env_user,
        !(s.flag_user matches Some(v) && v.len() > 0) && !(s.env_user matches Some(v) && v.len() > 0) ==> resolved_user(s) == match s.config {
            Some(c) => if c.user matches Some(v) && v.len() > 0 { c.user } else { None },
            None => None,
        },
        (s.flag_password matches Some(v) && v.len() > 0) ==> resolved_password(s) == s.flag_password,
        !(s.flag_password matches Some(v) && v.len() > 0) && (s.env_password matches Some(v) && v.len() > 0) ==> resolved_password(s)
            == s.env_password,
        !(s.flag_password matches Some(v) && v.len() > 0) && !(s.env_password matches Some(v) && v.len() > 0) ==> resolved_password(s)
            == match s.config {
            Some(c) => if c.password matches Some(v) && v.len() > 0 { c.password } else { None },
            None => None,
        },
        resolved_user(s) matches Some(u) ==> u.len() > 0,
        resolved_password(s) matches Some(p) ==> p.len() > 0,
{
}

/// The rendering of credentials does not depend on the password.
pub proof fn law_credentials_debug_hides_password(a: &Credentials, b: &Credentials)
    requires
        a.user() == b.user(),
    ensures
        credentials_debug(a.user()) == credentials_debug(b.user()),
{
}

/// The rendering of credential sources depends on the passwords only through
/// whether they are present: two sources that differ only in password values
/// render identically.
pub proof fn law_sources_debug_hides_passwords(a: SourcesView, b: SourcesView)
    requires
        a.flag_user == b.flag_user,
        a.env_user == b.env_user,
        a.flag_password is Some == b.flag_password is Some,
        a.env_password is Some == b.env_password is Some,
        a.config is Some == b.config is Some,
        a.config is Some ==> a.config->0.user == b.config->0.user && (a.config->0.password is Some
            == b.config->0.password is Some),
    ensures
        sources_debug(a) == sources_debug(b),
{
}

// ---------------------------------------------------------------------------
// Config file location and checks
// ---------------------------------------------------------------------------

/// `PathBuf::join` with a relative segment: a `/` is inserted unless `base`
/// is empty or already ends with one.
pub open spec fn path_join(base: Seq<char>, segment: Seq<char>) -> Seq<char> {
    if base.len() == 0 || base.last() == '/' {
        base + segment
    } else {
        base + seq!['/'] + segment
    }
}

/// The config file path: `$METALCTL_CONFIG`, else
/// `$XDG_CONFIG_HOME/metalctl/config.toml`, else
/// `$HOME/.config/metalctl/config.toml`, else none.
pub open spec fn config_path(
    config_env: Option<Seq<char>>,
    xdg_config_home: Option<Seq<char>>,
    home: Option<Seq<char>>,
) -> Option<Seq<char>> {
    match config_env {
        Some(p) => Some(p),
        None => match xdg_config_home {
            Some(x) => Some(path_join(path_join(x, "metalctl"@), "config.toml"@)),
            None => match home {
                Some(h) => Some(
                    path_join(path_join(path_join(h, ".config"@), "metalctl"@), "config.toml"@),
                ),
                None => None,
            },
        },
    }
}

/// Where the config file is looked for: `$METALCTL_CONFIG` as it is when
/// set; otherwise `metalctl/config.toml` under `$XDG_CONFIG_HOME`; otherwise
/// `.config/metalctl/config.toml` under `$HOME`; otherwise nowhere. A base
/// that does not end in `/` gets one before the rest.
pub proof fn law_config_path_order(
    config_env: Option<Seq<char>>,
    xdg: Option<Seq<char>>,
    home: Option<Seq<char>>,
)
    ensures
        config_env matches Some(p) ==> config_path(config_env, xdg, home) == Some(p),
        config_env is None ==> (xdg matches Some(x) ==> config_path(config_env, xdg, home) == Some(
            if x.len() > 0 && x.last() != '/' {
                x + "/metalctl/config.toml"@
            } else {
                x + "metalctl/config.toml"@
            },
        )),
        config_env is None && xdg is None ==> (home matches Some(h) ==> config_path(config_env, xdg, home)
            == Some(
            if h.len() > 0 && h.last() != '/' {
                h + "/.config/metalctl/config.toml"@
            } else {
                h + ".config/metalctl/config.toml"@
            },
        )),
        config_env is None && xdg is None && home is None ==> config_path(config_env, xdg, home) is None,
{
    reveal_strlit("metalctl");
    reveal_strlit(".config");
    reveal_strlit("config.toml");
    reveal_strlit("/metalctl/config.toml");
    reveal_strlit("metalctl/config.toml");
    reveal_strlit("/.config/metalctl/config.toml");
    reveal_strlit(".config/metalctl/config.toml");
    if config_env is None {
        if xdg is Some {
            let x = xdg->0;
            let a = path_join(x, "metalctl"@);
            assert(a.len() > 0 && a.last() == 'l');
            if x.len() > 0 && x.last() != '/' {
                assert(path_join(a, "config.toml"@) =~= x + "/metalctl/config.toml"@);
            } else {
                assert(path_join(a, "config.toml"@) =~= x + "metalctl/config.toml"@);
            }
        } else if home is Some {
            let h = home->0;
            let a = path_join(h, ".config"@);
            let b = path_join(a, "metalctl"@);
            assert(a.len() > 0 && a.last() == 'g');
            assert(b.len() > 0 && b.last() == 'l');
            if h.len() > 0 && h.last() != '/' {
                assert(path_join(b, "config.toml"@) =~= h + "/.config/metalctl/config.toml"@);
            } else {
                assert(path_join(b, "config.toml"@) =~= h + ".config/metalctl/config.toml"@);
            }
        }
    }
}

fn join_path(base: String, segment: &str) -> (joined: String)
    ensures
        joined@ == path_join(base@, segment@),
{
    let mut joined = base;
    let chars = crate::text::chars_of(joined.as_str());
    if chars.len() > 0 && chars[chars.len() - 1] != '/' {
        push_char(&mut joined, '/');
    }
    push_str(&mut joined, segment);
    joined
}

/// Computes the config file path from the values of `METALCTL_CONFIG`,
/// `XDG_CONFIG_HOME` and `HOME` (each `None` when unset).
pub fn config_path_from(
    config_env: Option<String>,
    xdg_config_home: Option<String>,
    home: Option<String>,
) -> (path: Option<String>)
    ensures
        crate::transport::opt_view(path) == config_path(
            crate::transport::opt_view(config_env),
            crate::transport::opt_view(xdg_config_home),
            crate::transport::opt_view(home),
        ),
{
    match config_env {
        Some(p) => Some(p),
        None => match xdg_config_home {
            Some(x) => Some(join_path(join_path(x, "metalctl"), "config.toml")),
            None => match home {
                Some(h) => Some(
                    join_path(join_path(join_path(h, ".config"), "metalctl"), "config.toml"),
                ),
                None => None,
            },
        },
    }
}

/// The refusal message for a config file whose `mode` lets others read it.
pub open spec fn insecure_config_message(path: Seq<char>, mode: u32) -> Seq<char> {
    path + " is accessible by other users (mode "@ + crate::text::octal3((mode & 0o777u32) as nat)
        + "); run `chmod 600`"@
}

/// Checks the Unix permission bits of the config file at `path`: it must not
/// be accessible by group or others.
///
/// # Errors
///
/// Returns [`Error::Config`] when any of the bits `0o077` is set.
pub fn check_config_permissions(path: &str, mode: u32) -> (r: Result<()>)
    ensures
        r is Ok <==> mode & 0o077u32 == 0,
        r matches Err(e) ==> e@ == ErrorView::Config(insecure_config_message(path@, mode)),
{
    if mode & 0o077u32 != 0 {
        let shown: u32 = mode & 0o777u32;
        assert(mode & 0o777u32 < 512) by (bit_vector);
        let mut m = String::new();
        push_str(&mut m, path);
        push_str(&mut m, " is accessible by other users (mode ");
        push_octal3(&mut m, shown);
        push_str(&mut m, "); run `chmod 600`");
        assert(m@ =~= insecure_config_message(path@, mode));
        return Err(Error::Config(m));
    }
    Ok(())
}

// ---------------------------------------------------------------------------
// Config file contents
// ---------------------------------------------------------------------------

/// A top-level value of a TOML document, as far as the config schema reads it.
pub enum TomlItem {
    /// A string.
    Text(String),
    /// An integer.
    Integer(i64),
    /// A float.
    Float,
    /// A boolean.
    Boolean(bool),
    /// A date or time.
    Datetime,
    /// An array.
    Array,
    /// A table.
    Table,
}

/// The model of a [`TomlItem`]: its text when it is a string.
pub open spec fn item_text(item: TomlItem) -> Option<Seq<char>> {
    match item {
        TomlItem::Text(t) => Some(t@),
        _ => None,
    }
}

/// The model of parsed top-level entries.
pub open spec fn entries_view(entries: Seq<(String, TomlItem)>) -> Seq<(Seq<char>, Option<Seq<char>>)> {
    entries.map_values(|e: (String, TomlItem)| (e.0@, item_text(e.1)))
}

/// Names what `toml::from_str::<toml::Table>` gives for `text`: the top-level
/// keys, in the order the table yields them (document order, as the crate's
/// `preserve_order` feature keeps it), each with its text when the value is a
/// string; or the text of the parse error.
pub uninterp spec fn toml_top_level(text: Seq<char>) -> std::result::Result<
    Seq<(Seq<char>, Option<Seq<char>>)>,
    Seq<char>,
>;

/// `toml::from_str::<toml::Table>(text)`, with the entries handed out in
/// table (document) order and the error turned into its message.
///
/// Claims only that the result is the named outcome for `text`.
#[verifier::external_body]
fn parse_toml_table(text: &str) -> (r: std::result::Result<Vec<(String, TomlItem)>, String>)
    ensures
        match r {
            Ok(entries) => toml_top_level(text@) == Ok::<_, Seq<char>>(entries_view(entries@)),
            Err(message) => toml_top_level(text@) == Err::<Seq<(Seq<char>, Option<Seq<char>>)>, _>(message@),
        },
{
    match toml::from_str::<toml::Table>(text) {
        Ok(table) => Ok(table.into_iter().map(|(key, value)| (key, match value {
            toml::Value::String(s) => TomlItem::Text(s),
            toml::Value::Integer(i) => TomlItem::Integer(i),
            toml::Value::Float(_) => TomlItem::Float,
            toml::Value::Boolean(b) => TomlItem::Boolean(b),
            toml::Value::Datetime(_) => TomlItem::Datetime,
            toml::Value::Array(_) => TomlItem::Array,
            toml::Value::Table(_) => TomlItem::Table,
        })).collect()),
        Err(error) => Err(error.to_string()),
    }
}

/// The message for a key the config schema does not know.
pub open spec fn unknown_key_message(key: Seq<char>) -> Seq<char> {
    "invalid config: unknown field `"@ + key + "`, expected `user` or `password`"@
}

/// The message for a known key whose value is not a string.
pub open spec fn not_text_message(key: Seq<char>) -> Seq<char> {
    "invalid config: invalid type for `"@ + key + "`, expected a string"@
}

/// Reads the config schema off top-level entries: only `user` and `password`
/// are accepted, each must be a string, and the first offending entry is
/// reported.
pub open spec fn config_from_entries(entries: Seq<(Seq<char>, Option<Seq<char>>)>) -> std::result::Result<
    ConfigView,
    Seq<char>,
>
    decreases entries.len(),
{
    if entries.len() == 0 {
        Ok(ConfigView { user: None, password: None })
    } else {
        match config_from_entries(entries.drop_last()) {
            Err(m) => Err(m),
            Ok(c) => {
                let (key, value) = entries.last();
                if key == "user"@ {
                    match value {
                        Some(t) => Ok(ConfigView { user: Some(t), password: c.password }),
                        None => Err(not_text_message(key)),
                    }
                } else if key == "password"@ {
                    match value {
                        Some(t) => Ok(ConfigView { user: c.user, password: Some(t) }),
                        None => Err(not_text_message(key)),
                    }
                } else {
                    Err(unknown_key_message(key))
                }
            },
        }
    }
}

/// The field of `v` named `key` (`user` or `password`).
pub open spec fn config_field(v: ConfigView, key: Seq<char>) -> Option<Seq<char>> {
    if key == "user"@ {
        v.user
    } else {
        v.password
    }
}

proof fn lemma_config_field(entries: Seq<(Seq<char>, Option<Seq<char>>)>, key: Seq<char>)
    requires
        key == "user"@ || key == "password"@,
    ensures
        config_from_entries(entries) matches Ok(v) ==> {
            &&& (config_field(v, key) is None <==> forall|i: int|
                0 <= i < entries.len() ==> #[trigger] entries[i].0 != key)
            &&& (config_field(v, key) is Some ==> exists|i: int|
                0 <= i < entries.len() && #[trigger] entries[i] == (key, config_field(v, key))
                    && forall|j: int| i < j < entries.len() ==> #[trigger] entries[j].0 != key)
        },
    decreases entries.len(),
{
    reveal_strlit("user");
    reveal_strlit("password");
    assert("user"@.len() == 4 && "password"@.len() == 8);
    if entries.len() > 0 {
        let p = entries.drop_last();
        lemma_config_field(p, key);
        let (k, val) = entries.last();
        let n = entries.len() - 1;
        assert(entries[n] == (k, val));
        assert forall|i: int| 0 <= i < p.len() implies #[trigger] p[i] == entries[i] by {}
        if config_from_entries(entries) is Ok {
            let v = config_from_entries(entries)->Ok_0;
            let c = config_from_entries(p)->Ok_0;
            if k == key {
                assert(config_field(v, key) == val);
                assert(entries[n] == (key, config_field(v, key)));
            } else {
                assert(config_field(v, key) == config_field(c, key));
                if config_field(v, key) is Some {
                    let i = choose|i: int|
                        0 <= i < p.len() && #[trigger] p[i] == (key, config_field(c, key)) && forall|
                            j: int,
                        | i < j < p.len() ==> #[trigger] p[j].0 != key;
                    assert(entries[i] == (key, config_field(v, key)));
                    assert forall|j: int| i < j < entries.len() implies #[trigger] entries[j].0 != key by {
                        if j < p.len() {
                            assert(p[j] == entries[j]);
                        }
                    }
                } else {
                    assert forall|i: int| 0 <= i < entries.len() implies #[trigger] entries[i].0 != key by {
                        if i < p.len() {
                            assert(p[i] == entries[i]);
                        }
                    }
                }
            }
        }
    }
}

/// An entry the config schema accepts: `user` or `password` with a string.
pub open spec fn is_schema_entry(e: (Seq<char>, Option<Seq<char>>)) -> bool {
    (e.0 == "user"@ || e.0 == "password"@) && e.1 is Some
}

proof fn lemma_config_accepts(entries: Seq<(Seq<char>, Option<Seq<char>>)>)
    ensures
        config_from_entries(entries) is Ok <==> forall|i: int|
            0 <= i < entries.len() ==> is_schema_entry(#[trigger] entries[i]),
    decreases entries.len(),
{
    if entries.len() > 0 {
        let p = entries.drop_last();
        lemma_config_accepts(p);
        assert forall|i: int| 0 <= i < p.len() implies #[trigger] p[i] == entries[i] by {}
        let n = entries.len() - 1;
        if forall|i: int|
            0 <= i < entries.len() ==> is_schema_entry(#[trigger] entries[i]) {
            assert forall|i: int|
                0 <= i < p.len() implies is_schema_entry(#[trigger] p[i]) by {
                assert(p[i] == entries[i]);
            }
            assert(is_schema_entry(entries[n]));
        }
        if config_from_entries(entries) is Ok {
            assert(config_from_entries(p) is Ok);
            assert(entries[n] == entries.last());
            assert(is_schema_entry(entries[n]));
            assert forall|i: int|
                0 <= i < entries.len() implies is_schema_entry(#[trigger] entries[i]) by {
                if i < p.len() {
                    assert(p[i] == entries[i]);
                }
            }
        }
    }
}

/// Reading the config schema off the entries of a file succeeds exactly when
/// every entry is `user` or `password` with a string value. Then each field
/// holds the value of the last entry with its key, wherever the entries of
/// the other key stand, and is absent when no entry has its key: the order of
/// `user` and `password` in the file does not matter.
pub proof fn law_config_fields_are_read_independently(entries: Seq<(Seq<char>, Option<Seq<char>>)>)
    ensures
        config_from_entries(entries) is Ok <==> forall|i: int|
            0 <= i < entries.len() ==> is_schema_entry(#[trigger] entries[i]),
        config_from_entries(entries) matches Ok(v) ==> {
            &&& (v.user is None <==> forall|i: int|
                0 <= i < entries.len() ==> #[trigger] entries[i].0 != "user"@)
            &&& (v.user is Some ==> exists|i: int|
                0 <= i < entries.len() && #[trigger] entries[i] == ("user"@, v.user) && forall|j: int|
                    i < j < entries.len() ==> #[trigger] entries[j].0 != "user"@)
            &&& (v.password is None <==> forall|i: int|
                0 <= i < entries.len() ==> #[trigger] entries[i].0 != "password"@)
            &&& (v.password is Some ==> exists|i: int|
                0 <= i < entries.len() && #[trigger] entries[i] == ("password"@, v.password)
                    && forall|j: int| i < j < entries.len() ==> #[trigger] entries[j].0 != "password"@)
        },
{
    reveal_strlit("user");
    reveal_strlit("password");
    assert("user"@.len() == 4 && "password"@.len() == 8);
    lemma_config_accepts(entries);
    lemma_config_field(entries, "user"@);
    lemma_config_field(entries, "password"@);
}

/// What parsing a config file text gives: the credentials, or the message of
/// the [`Error::Config`] it is refused with.
pub open spec fn parsed_config(text: Seq<char>) -> std::result::Result<ConfigView, Seq<char>> {
    match toml_top_level(text) {
        Ok(entries) => config_from_entries(entries),
        Err(m) => Err("invalid config: "@ + m),
    }
}

/// Parses the text of a config file: a TOML document with optional `user` and
/// `password` strings and no other keys.
///
/// # Errors
///
/// Returns [`Error::Config`] for malformed TOML, an unknown key, or a value
/// that is not a string.
pub fn parse_config(text: &str) -> (r: Result<ConfigCredentials>)
    ensures
        match r {
            Ok(c) => parsed_config(text@) == Ok::<ConfigView, Seq<char>>(c@),
            Err(e) => exists|m: Seq<char>|
                parsed_config(text@) == Err::<ConfigView, Seq<char>>(m) && e@ == ErrorView::Config(m),
        },
{
    match parse_toml_table(text) {
        Ok(entries) => config_from_items(entries),
        Err(message) => {
            let mut m = String::new();
            push_str(&mut m, "invalid config: ");
            push_str(&mut m, message.as_str());
            assert(m@ =~= "invalid config: "@ + message@);
            Err(Error::Config(m))
        },
    }
}

/// Reads the config schema off the top-level entries of a parsed config file,
/// in order: only `user` and `password` are accepted, each must be a string,
/// and the first offending entry is reported.
///
/// # Errors
///
/// Returns [`Error::Config`] for an unknown key or a value that is not a
/// string.
pub fn config_from_items(entries: Vec<(String, TomlItem)>) -> (r: Result<ConfigCredentials>)
    ensures
        match (r, config_from_entries(entries_view(entries@))) {
            (Ok(c), Ok(v)) => c@ == v,
            (Err(e), Err(m)) => e@ == ErrorView::Config(m),
            _ => false,
        },
{
    let ghost all = entries_view(entries@);
    let mut config = ConfigCredentials { user: None, password: None };
    let mut i: usize = 0;
    while i < entries.len()
        invariant
            i <= entries@.len(),
            all == entries_view(entries@),
            config_from_entries(all.take(i as int)) == Ok::<ConfigView, Seq<char>>(config@),
        decreases entries@.len() - i,
    {
        let (key, item) = &entries[i];
        proof {
            assert(all.take(i + 1).drop_last() =~= all.take(i as int));
            assert(all.take(i + 1).last() == (key@, item_text(*item)));
        }
        let is_user = same_text(key.as_str(), "user");
        let is_password = same_text(key.as_str(), "password");
        if is_user || is_password {
            match item {
                TomlItem::Text(t) => {
                    if is_user {
                        config.user = Some(t.clone());
                    } else {
                        config.password = Some(t.clone());
                    }
                },
                _ => {
                    let mut m = String::new();
                    push_str(&mut m, "invalid config: invalid type for `");
                    push_str(&mut m, key.as_str());
                    push_str(&mut m, "`, expected a string");
                    proof {
                        assert(m@ =~= not_text_message(key@));
                        assert(config_from_entries(all.take(i + 1)) == Err::<ConfigView, Seq<char>>(m@));
                        lemma_config_error_sticks(all, i as int + 1);
                    }
                    return Err(Error::Config(m));
                },
            }
        } else {
            let mut m = String::new();
            push_str(&mut m, "invalid config: unknown field `");
            push_str(&mut m, key.as_str());
            push_str(&mut m, "`, expected `user` or `password`");
            proof {
                assert(m@ =~= unknown_key_message(key@));
                assert(config_from_entries(all.take(i + 1)) == Err::<ConfigView, Seq<char>>(m@));
                lemma_config_error_sticks(all, i as int + 1);
            }
            return Err(Error::Config(m));
        }
        i = i + 1;
    }
    proof {
        assert(all.take(i as int) =~= all);
    }
    Ok(config)
}

/// Once a prefix of the entries is refused, the whole is refused with the
/// same message.
proof fn lemma_config_error_sticks(entries: Seq<(Seq<char>, Option<Seq<char>>)>, k: int)
    requires
        0 <= k <= entries.len(),
        config_from_entries(entries.take(k)) is Err,
    ensures
        config_from_entries(entries) == config_from_entries(entries.take(k)),
    decreases entries.len() - k,
{
    if k < entries.len() {
        assert(entries.take(k + 1).drop_last() =~= entries.take(k));
        lemma_config_error_sticks(entries, k + 1);
    } else {
        assert(entries.take(k) =~= entries);
    }
}

} // verus!
