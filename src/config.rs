use vstd::prelude::*;

verus! {

/// The settings as read from the process environment, each value present
/// only where the variable was set.
pub struct Environment {
    pub root_dir: Option<String>,
    pub use_key: Option<String>,
    pub key: Option<String>,
    pub user_url: Option<String>,
    pub title: Option<String>,
    pub use_cors: Option<String>,
}

/// The immutable settings that every handler reads.
///
/// `key` is `Some` exactly when uploads must present that key.
pub struct Settings {
    pub root_dir: String,
    pub key: Option<String>,
    pub user_url: String,
    pub title: String,
    pub use_cors: bool,
}

/// What the settings hold, as mathematical values.
pub ghost struct SettingsView {
    pub root_dir: Seq<char>,
    pub key: Option<Seq<char>>,
    pub user_url: Seq<char>,
    pub title: Seq<char>,
    pub use_cors: bool,
}

pub open spec fn opt_view(o: Option<String>) -> Option<Seq<char>> {
    match o {
        Some(s) => Some(s@),
        None => None,
    }
}

impl View for Settings {
    type V = SettingsView;

    open spec fn view(&self) -> SettingsView {
        SettingsView {
            root_dir: self.root_dir@,
            key: opt_view(self.key),
            user_url: self.user_url@,
            title: self.title@,
            use_cors: self.use_cors,
        }
    }
}

/// Why the settings could not be resolved.
#[derive(Debug, Clone, Copy, PartialEq, Eq, Structural)]
pub enum ConfigError {
    /// Key checking was switched on but no key was given.
    MissingKey,
}

/// A boolean option holds exactly when its text is `true`; any other text,
/// or no value, means off.
pub open spec fn flag_set(v: Option<Seq<char>>) -> bool {
    v == Some("true"@)
}

pub open spec fn digit_char(d: nat) -> char {
    if d == 0 { '0' }
    else if d == 1 { '1' }
    else if d == 2 { '2' }
    else if d == 3 { '3' }
    else if d == 4 { '4' }
    else if d == 5 { '5' }
    else if d == 6 { '6' }
    else if d == 7 { '7' }
    else if d == 8 { '8' }
    else { '9' }
}

/// The decimal digits of `n`, most significant first, without leading zeros.
pub open spec fn decimal(n: nat) -> Seq<char>
    decreases n,
{
    if n < 10 {
        seq![digit_char(n)]
    } else {
        decimal(n / 10) + seq![digit_char(n % 10)]
    }
}

/// The base URL used when none is configured: the server's own address.
pub open spec fn default_url_of(address: Seq<char>, port: nat) -> Seq<char> {
    "http://"@ + address + ":"@ + decimal(port)
}

pub open spec fn or_default(v: Option<Seq<char>>, d: Seq<char>) -> Seq<char> {
    match v {
        Some(s) => s,
        None => d,
    }
}

/// The settings that an environment resolves to, or the reason it does not.
pub open spec fn resolved(
    root_dir: Option<Seq<char>>,
    use_key: Option<Seq<char>>,
    key: Option<Seq<char>>,
    user_url: Option<Seq<char>>,
    title: Option<Seq<char>>,
    use_cors: Option<Seq<char>>,
    address: Seq<char>,
    port: nat,
) -> Result<SettingsView, ConfigError> {
    if flag_set(use_key) && key is None {
        Err(ConfigError::MissingKey)
    } else {
        Ok(
            SettingsView {
                root_dir: or_default(root_dir, "/var/files"@),
                key: if flag_set(use_key) && key.unwrap().len() > 0 {
                    key
                } else {
                    None
                },
                user_url: or_default(user_url, default_url_of(address, port)),
                title: or_default(title, "Simpler Filehost"@),
                use_cors: flag_set(use_cors),
            },
        )
    }
}

/// Reads a boolean option: on only for the exact text `true`.
pub fn parse_flag(v: &Option<String>) -> (r: bool)
    ensures
        r == flag_set(opt_view(*v)),
{
    match v {
        Some(s) => {
            let t = String::from_str("true");
            *s == t
        },
        None => false,
    }
}

fn digit_str(d: u16) -> (r: &'static str)
    requires
        d < 10,
    ensures
        r@ == seq![digit_char(d as nat)],
{
    proof {
        reveal_strlit("0");
        reveal_strlit("1");
        reveal_strlit("2");
        reveal_strlit("3");
        reveal_strlit("4");
        reveal_strlit("5");
        reveal_strlit("6");
        reveal_strlit("7");
        reveal_strlit("8");
        reveal_strlit("9");
    }
    if d == 0 { "0" }
    else if d == 1 { "1" }
    else if d == 2 { "2" }
    else if d == 3 { "3" }
    else if d == 4 { "4" }
    else if d == 5 { "5" }
    else if d == 6 { "6" }
    else if d == 7 { "7" }
    else if d == 8 { "8" }
    else { "9" }
}

/// Writes a port number in decimal.
pub fn decimal_string(n: u16) -> (r: String)
    ensures
        r@ == decimal(n as nat),
    decreases n,
{
    if n < 10 {
        String::from_str(digit_str(n))
    } else {
        let mut s = decimal_string(n / 10);
        s.append(digit_str(n % 10));
        s
    }
}

/// The base URL of a server bound to `address` and `port`.
pub fn default_user_url(address: &str, port: u16) -> (r: String)
    ensures
        r@ == default_url_of(address@, port as nat),
{
    let mut s = String::from_str("http://");
    s.append(address);
    s.append(":");
    let digits = decimal_string(port);
    s.append(digits.as_str());
    s
}

fn or_else(v: Option<String>, d: String) -> (r: String)
    ensures
        r@ == or_default(opt_view(v), d@),
{
    match v {
        Some(s) => s,
        None => d,
    }
}

impl Settings {
    /// Resolves the settings once, at startup. A server bound to `address`
    /// and `port` is where download links point when no base URL is given.
    pub fn resolve(env: Environment, address: &str, port: u16) -> (r: Result<Settings, ConfigError>)
        ensures
            match r {
                Ok(s) => resolved(
                    opt_view(env.root_dir),
                    opt_view(env.use_key),
                    opt_view(env.key),
                    opt_view(env.user_url),
                    opt_view(env.title),
                    opt_view(env.use_cors),
                    address@,
                    port as nat,
                ) == Ok::<SettingsView, ConfigError>(s@),
                Err(e) => resolved(
                    opt_view(env.root_dir),
                    opt_view(env.use_key),
                    opt_view(env.key),
                    opt_view(env.user_url),
                    opt_view(env.title),
                    opt_view(env.use_cors),
                    address@,
                    port as nat,
                ) == Err::<SettingsView, ConfigError>(e),
            },
    {
        let use_key = parse_flag(&env.use_key);
        let use_cors = parse_flag(&env.use_cors);
        let key = match env.key {
            None => {
                if use_key {
                    return Err(ConfigError::MissingKey);
                }
                None
            },
            Some(k) => {
                if use_key && !k.as_str().is_empty() {
                    Some(k)
                } else {
                    None
                }
            },
        };
        let root_dir = or_else(env.root_dir, String::from_str("/var/files"));
        let user_url = match env.user_url {
            Some(u) => u,
            None => default_user_url(address, port),
        };
        let title = or_else(env.title, String::from_str("Simpler Filehost"));
        Ok(Settings { root_dir, key, user_url, title, use_cors })
    }
}

} // verus!
