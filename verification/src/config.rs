use vstd::prelude::*;
use vstd::string::*;

verus! {

/// The size of the pool where the configuration names none.
pub const MAX_CONNECTIONS: u32 = 10;

/// How to reach the database. Loaded once when the process starts and never
/// changed after that.
#[derive(Clone, PartialEq, Eq)]
pub struct Config {
    pub server: String,
    pub user: String,
    pub database: String,
    /// Kept as text, and handed on as it was written.
    pub port: String,
    pub password: String,
    pub max_connections: Option<u32>,
}

/// What a pool of connections is opened with.
#[derive(Clone, PartialEq, Eq)]
pub struct PoolOptions {
    pub url: String,
    pub max_connections: u32,
}

/// The address of `database` on `server`:`port` for `user` with `password`.
pub open spec fn database_url(
    user: Seq<char>,
    password: Seq<char>,
    server: Seq<char>,
    port: Seq<char>,
    database: Seq<char>,
) -> Seq<char> {
    "postgres://"@ + user + ":"@ + password + "@"@ + server + ":"@ + port + "/"@ + database
}

/// The line that shows a configuration with these fields. No password is among
/// the fields: in place of it the line holds four asterisks.
pub open spec fn masked_line(
    server: Seq<char>,
    user: Seq<char>,
    database: Seq<char>,
    port: Seq<char>,
) -> Seq<char> {
    "config: server: "@ + server + " user: "@ + user + " database: "@ + database + " port: "@ + port
        + " password: ****"@ + "\n"@
}

/// Whether `needle` stands somewhere in `text`, character for character.
pub open spec fn occurs_in(needle: Seq<char>, text: Seq<char>) -> bool {
    exists|at: int|
        0 <= at && at + needle.len() <= text.len() && #[trigger] text.subrange(
            at,
            at + needle.len(),
        ) == needle
}

impl Config {
    /// The address that the pool connects to.
    pub open spec fn url(&self) -> Seq<char> {
        database_url(self.user@, self.password@, self.server@, self.port@, self.database@)
    }

    /// The most connections that the pool holds.
    pub open spec fn pool_size(&self) -> u32 {
        match self.max_connections {
            Some(n) => n,
            None => MAX_CONNECTIONS,
        }
    }

    /// The configuration as a line of text for a log.
    pub open spec fn rendering(&self) -> Seq<char> {
        masked_line(self.server@, self.user@, self.database@, self.port@)
    }

    /// What the pool is opened with: the address made of the five connection
    /// fields, and the configured size or [`MAX_CONNECTIONS`].
    pub fn connect(&self) -> (options: PoolOptions)
        ensures
            options.url@ == self.url(),
            options.max_connections == self.pool_size(),
    {
        let mut url = String::from_str("postgres://");
        url.append(self.user.as_str());
        url.append(":");
        url.append(self.password.as_str());
        url.append("@");
        url.append(self.server.as_str());
        url.append(":");
        url.append(self.port.as_str());
        url.append("/");
        url.append(self.database.as_str());
        let max_connections = match self.max_connections {
            Some(n) => n,
            None => MAX_CONNECTIONS,
        };
        PoolOptions { url, max_connections }
    }

    /// Renders the configuration for a log, with the password masked.
    pub fn to_string(&self) -> (line: String)
        ensures
            line@ == self.rendering(),
    {
        let mut line = String::from_str("config: server: ");
        line.append(self.server.as_str());
        line.append(" user: ");
        line.append(self.user.as_str());
        line.append(" database: ");
        line.append(self.database.as_str());
        line.append(" port: ");
        line.append(self.port.as_str());
        line.append(" password: ****");
        line.append("\n");
        line
    }
}

/// The rendering of a configuration does not depend on its password: two
/// configurations that differ in nothing else are rendered alike.
pub proof fn lemma_rendering_ignores_password(a: Config, b: Config)
    requires
        a.server@ == b.server@,
        a.user@ == b.user@,
        a.database@ == b.database@,
        a.port@ == b.port@,
    ensures
        a.rendering() == b.rendering(),
{
}

/// The rendering of a configuration does not hold its password, unless the
/// line that masks it spells the password by itself.
pub proof fn lemma_rendering_hides_password(config: Config)
    requires
        !occurs_in(
            config.password@,
            masked_line(config.server@, config.user@, config.database@, config.port@),
        ),
    ensures
        !occurs_in(config.password@, config.rendering()),
{
}

/// A password with a character that the masked line lacks does not occur in
/// the rendering.
pub proof fn lemma_rendering_lacks_foreign_password(config: Config, sign: char)
    requires
        config.password@.contains(sign),
        !masked_line(config.server@, config.user@, config.database@, config.port@).contains(sign),
    ensures
        !occurs_in(config.password@, config.rendering()),
{
    let password = config.password@;
    let line = config.rendering();
    if occurs_in(password, line) {
        let at = choose|at: int|
            0 <= at && at + password.len() <= line.len() && #[trigger] line.subrange(
                at,
                at + password.len(),
            ) == password;
        let k = choose|k: int| 0 <= k < password.len() && password[k] == sign;
        assert(line.subrange(at, at + password.len())[k] == line[at + k]);
        assert(line.contains(sign));
    }
}

} // verus!
