//! The stored configuration: signed-in user, saved workspaces, the token
//! and the server override, with the rules that read them.

use vstd::prelude::*;
use crate::text::{trim, trim_start, trim_str, concat, str_eq};

verus! {

/// The directory, under the home directory, that holds the configuration.
pub const CONFIG_DIR: &'static str = ".saturation";

/// The configuration file's name inside `CONFIG_DIR`.
pub const CONFIG_FILE: &'static str = "config.json";

/// Default host for the agent registry and legacy desktop-token refresh
/// (`/api/cli/...`), which live on the internal web host.
pub const DEFAULT_SERVER: &'static str = "https://next.saturation.io";

/// Default host for the public `/v1` API, distinct from `DEFAULT_SERVER`.
/// An explicit server override applies to both.
pub const DEFAULT_V1_SERVER: &'static str = "https://next-api.saturation.io";

/// Access mode of the configuration directory: owner only.
pub const DIR_MODE: u32 = 0o700;

/// Access mode of the configuration file: owner read and write only.
pub const FILE_MODE: u32 = 0o600;

/// The signed-in user.
#[derive(Clone, Debug)]
pub struct UserInfo {
    pub id: String,
    pub email: String,
    pub name: Option<String>,
}

/// A saved workspace.
#[derive(Clone, Debug)]
pub struct WorkspaceInfo {
    pub name: String,
    pub role: String,
}

/// A stored bearer token. An empty `refresh_token` marks a token that cannot
/// be refreshed; an empty `expires_at` one that does not expire.
#[derive(Clone, Debug)]
pub struct TokenInfo {
    pub access_token: String,
    pub refresh_token: String,
    pub expires_at: String,
}

/// The OAuth client that issued the stored token.
#[derive(Clone, Debug)]
pub struct OAuthInfo {
    pub client_id: String,
    pub token_endpoint: String,
    pub resource: String,
}

/// The stored configuration. Saved workspaces are kept as `(id, info)`
/// pairs, each id at most once (see `workspaces_unique`).
#[derive(Debug)]
pub struct Config {
    pub user: Option<UserInfo>,
    pub active_workspace: Option<String>,
    pub workspaces: Vec<(String, WorkspaceInfo)>,
    pub token: Option<TokenInfo>,
    pub server: Option<String>,
    pub oauth: Option<OAuthInfo>,
}

/// Errors of the configuration rules.
#[derive(Debug, PartialEq, Eq, Structural, Clone, Copy)]
pub enum ConfigError {
    /// No home directory could be determined.
    NoHomeDirectory,
    /// No token is stored.
    NotAuthenticated,
}

impl ConfigError {
    /// The message shown to the user.
    pub fn message(&self) -> (s: String)
        ensures
            s@ == config_error_text(*self),
    {
        match self {
            ConfigError::NoHomeDirectory => "Could not determine home directory".to_owned(),
            ConfigError::NotAuthenticated => {
                "Not authenticated. Run `saturation auth token TOKEN` first.".to_owned()
            },
        }
    }
}

/// The message of each configuration error.
pub open spec fn config_error_text(e: ConfigError) -> Seq<char> {
    match e {
        ConfigError::NoHomeDirectory => "Could not determine home directory"@,
        ConfigError::NotAuthenticated => "Not authenticated. Run `saturation auth token TOKEN` first."@,
    }
}

/// The ids of saved workspaces, in order.
pub open spec fn workspace_ids(ws: Seq<(String, WorkspaceInfo)>) -> Seq<Seq<char>> {
    ws.map_values(|p: (String, WorkspaceInfo)| p.0@)
}

/// No workspace id is saved twice.
pub open spec fn workspaces_unique(ws: Seq<(String, WorkspaceInfo)>) -> bool {
    forall|i: int, j: int|
        0 <= i < j < ws.len() ==> #[trigger] ws[i].0@ != #[trigger] ws[j].0@
}

/// The saved workspace with the given id, if any.
pub open spec fn workspace_lookup(ws: Seq<(String, WorkspaceInfo)>, id: Seq<char>) -> Option<WorkspaceInfo>
    decreases ws.len(),
{
    if ws.len() == 0 {
        None
    } else if ws.last().0@ == id {
        Some(ws.last().1)
    } else {
        workspace_lookup(ws.drop_last(), id)
    }
}

/// The saved workspaces after saving `info` under `id`: an existing entry
/// for `id` is replaced in place, otherwise the pair is appended.
pub open spec fn workspaces_with(ws: Seq<(String, WorkspaceInfo)>, id: String, info: WorkspaceInfo) -> Seq<(String, WorkspaceInfo)> {
    if exists|i: int| 0 <= i < ws.len() && #[trigger] ws[i].0@ == id@ {
        let i = choose|i: int| 0 <= i < ws.len() && #[trigger] ws[i].0@ == id@;
        ws.update(i, (id, info))
    } else {
        ws.push((id, info))
    }
}

/// The host for auth and the agent registry under a server override.
pub open spec fn server_url_of(server: Option<String>) -> Seq<char> {
    match server {
        Some(s) => s@,
        None => DEFAULT_SERVER@,
    }
}

/// The host for the public `/v1` API under a server override.
pub open spec fn v1_server_url_of(server: Option<String>) -> Seq<char> {
    match server {
        Some(s) => s@,
        None => DEFAULT_V1_SERVER@,
    }
}

/// `PathBuf::join` of a relative piece onto a base, on Unix: a `/` goes
/// between them unless the base is empty or already ends with one.
pub open spec fn path_join(base: Seq<char>, piece: Seq<char>) -> Seq<char> {
    if base.len() == 0 || base.last() == '/' {
        base + piece
    } else {
        base + seq!['/'] + piece
    }
}

/// The configuration directory under a home directory.
pub open spec fn config_dir_of(home: Seq<char>) -> Seq<char> {
    path_join(home, CONFIG_DIR@)
}

/// The configuration file under a home directory.
pub open spec fn config_path_of(home: Seq<char>) -> Seq<char> {
    path_join(config_dir_of(home), CONFIG_FILE@)
}

/// Where and how the configuration is written: the directory (created with
/// `dir_mode`) and the file inside it (written with `file_mode`).
#[derive(Debug)]
pub struct SaveTarget {
    pub dir: String,
    pub file: String,
    pub dir_mode: u32,
    pub file_mode: u32,
}

/// The home directory as `dirs::home_dir` reports it, or `None` where it
/// cannot be determined. It depends on the environment, so nothing is
/// promised of it; a path that is not valid Unicode is carried with
/// replacement characters.
#[verifier::external_body]
fn home_directory() -> (r: Option<String>)
{
    match dirs::home_dir() {
        Some(p) => Some(p.to_string_lossy().into_owned()),
        None => None,
    }
}

/// Joins a relative piece onto a base path.
pub fn join_path(base: &str, piece: &str) -> (r: String)
    ensures
        r@ == path_join(base@, piece@),
{
    let n = base.unicode_len();
    if n == 0 || base.get_char(n - 1) == '/' {
        concat(base, piece)
    } else {
        let with_sep = concat(base, "/");
        proof {
            reveal_strlit("/");
        }
        let r = concat(with_sep.as_str(), piece);
        assert(r@ =~= base@ + seq!['/'] + piece@);
        r
    }
}

impl Default for Config {
    /// The empty configuration: nothing signed in, nothing saved.
    fn default() -> (c: Config)
        ensures
            c.user is None,
            c.active_workspace is None,
            c.workspaces@.len() == 0,
            c.token is None,
            c.server is None,
            c.oauth is None,
    {
        Config {
            user: None,
            active_workspace: None,
            workspaces: Vec::new(),
            token: None,
            server: None,
            oauth: None,
        }
    }
}

impl Config {
    /// The configuration's invariant: each workspace id is saved once.
    pub open spec fn well_formed(&self) -> bool {
        workspaces_unique(self.workspaces@)
    }

    /// The configuration directory under the given home directory.
    pub fn config_dir_in(home: &str) -> (r: String)
        ensures
            r@ == config_dir_of(home@),
    {
        join_path(home, CONFIG_DIR)
    }

    /// The configuration file under the given home directory.
    pub fn config_path_in(home: &str) -> (r: String)
        ensures
            r@ == config_path_of(home@),
    {
        let dir = Self::config_dir_in(home);
        join_path(dir.as_str(), CONFIG_FILE)
    }

    /// The configuration directory under the user's home directory; fails
    /// when no home directory can be determined.
    pub fn config_dir() -> (r: Result<String, ConfigError>)
        ensures
            r matches Ok(d) ==> exists|home: Seq<char>| d@ == config_dir_of(home),
            r matches Err(e) ==> e == ConfigError::NoHomeDirectory,
    {
        match home_directory() {
            Some(home) => Ok(Self::config_dir_in(home.as_str())),
            None => Err(ConfigError::NoHomeDirectory),
        }
    }

    /// The configuration file under the user's home directory; fails when
    /// no home directory can be determined.
    pub fn config_path() -> (r: Result<String, ConfigError>)
        ensures
            r matches Ok(p) ==> exists|home: Seq<char>| p@ == config_path_of(home),
            r matches Err(e) ==> e == ConfigError::NoHomeDirectory,
    {
        match home_directory() {
            Some(home) => Ok(Self::config_path_in(home.as_str())),
            None => Err(ConfigError::NoHomeDirectory),
        }
    }

    /// Where this configuration is written under the given home directory:
    /// the directory owner-only, the file owner read-write only.
    pub fn save_target_in(&self, home: &str) -> (t: SaveTarget)
        ensures
            t.dir@ == config_dir_of(home@),
            t.file@ == config_path_of(home@),
            t.dir_mode == DIR_MODE,
            t.file_mode == FILE_MODE,
    {
        SaveTarget {
            dir: Self::config_dir_in(home),
            file: Self::config_path_in(home),
            dir_mode: DIR_MODE,
            file_mode: FILE_MODE,
        }
    }

    /// Where this configuration is written under the user's home directory;
    /// fails when no home directory can be determined. The caller writes the
    /// serialized configuration there.
    pub fn save(&self) -> (r: Result<SaveTarget, ConfigError>)
        ensures
            r matches Ok(t) ==> (exists|home: Seq<char>|
                t.dir@ == config_dir_of(home) && #[trigger] t.file@ == config_path_of(home))
                && t.dir_mode == DIR_MODE && t.file_mode == FILE_MODE,
            r matches Err(e) ==> e == ConfigError::NoHomeDirectory,
    {
        match home_directory() {
            Some(home) => Ok(self.save_target_in(home.as_str())),
            None => Err(ConfigError::NoHomeDirectory),
        }
    }

    /// Host for auth and the agent registry; an explicit override wins.
    pub fn server_url(&self) -> (s: &str)
        ensures
            s@ == server_url_of(self.server),
    {
        match &self.server {
            Some(s) => s.as_str(),
            None => DEFAULT_SERVER,
        }
    }

    /// Host for the public `/v1` API client; falls back to the public API
    /// host, not the internal one, when no override is set.
    pub fn v1_server_url(&self) -> (s: &str)
        ensures
            s@ == v1_server_url_of(self.server),
    {
        match &self.server {
            Some(s) => s.as_str(),
            None => DEFAULT_V1_SERVER,
        }
    }

    /// The stored token, or `NotAuthenticated` when there is none.
    pub fn require_token(&self) -> (r: Result<&TokenInfo, ConfigError>)
        ensures
            r is Ok <==> self.token is Some,
            r matches Ok(t) ==> self.token == Some(*t),
            r matches Err(e) ==> e == ConfigError::NotAuthenticated,
    {
        match &self.token {
            Some(t) => Ok(t),
            None => Err(ConfigError::NotAuthenticated),
        }
    }

    /// The saved workspace with the given id, if any.
    pub fn workspace(&self, id: &str) -> (r: Option<&WorkspaceInfo>)
        ensures
            r matches Some(w) ==> workspace_lookup(self.workspaces@, id@) == Some(*w),
            r is None ==> workspace_lookup(self.workspaces@, id@) is None,
    {
        let mut i = self.workspaces.len();
        assert(self.workspaces@.take(i as int) =~= self.workspaces@);
        while i > 0
            invariant
                i <= self.workspaces@.len(),
                workspace_lookup(self.workspaces@, id@) == workspace_lookup(self.workspaces@.take(i as int), id@),
            decreases i,
        {
            let ghost t = self.workspaces@.take(i as int);
            assert(t.drop_last() =~= self.workspaces@.take(i - 1));
            if str_eq(self.workspaces[i - 1].0.as_str(), id) {
                return Some(&self.workspaces[i - 1].1);
            }
            i = i - 1;
        }
        None
    }

    /// Saves `info` under `id`, replacing an entry with the same id.
    pub fn insert_workspace(&mut self, id: String, info: WorkspaceInfo)
        requires
            old(self).well_formed(),
        ensures
            final(self).well_formed(),
            final(self).workspaces@ == workspaces_with(old(self).workspaces@, id, info),
            final(self).user == old(self).user,
            final(self).active_workspace == old(self).active_workspace,
            final(self).token == old(self).token,
            final(self).server == old(self).server,
            final(self).oauth == old(self).oauth,
    {
        let ghost ws = self.workspaces@;
        let mut i: usize = 0;
        while i < self.workspaces.len()
            invariant
                i <= self.workspaces@.len(),
                *self == *old(self),
                old(self).well_formed(),
                ws == old(self).workspaces@,
                forall|k: int| 0 <= k < i ==> #[trigger] ws[k].0@ != id@,
            decreases self.workspaces@.len() - i,
        {
            if str_eq(self.workspaces[i].0.as_str(), id.as_str()) {
                let ghost j = i as int;
                assert(exists|k: int| 0 <= k < ws.len() && #[trigger] ws[k].0@ == id@) by {
                    assert(ws[j].0@ == id@);
                }
                let ghost c = choose|k: int| 0 <= k < ws.len() && #[trigger] ws[k].0@ == id@;
                assert(c == j) by {
                    if c < j {
                        assert(ws[c].0@ != ws[j].0@);
                    } else if c > j {
                        assert(ws[j].0@ != ws[c].0@);
                    }
                }
                self.workspaces.set(i, (id, info));
                assert(workspaces_unique(self.workspaces@)) by {
                    assert forall|a: int, b: int| 0 <= a < b < self.workspaces@.len() implies
                        #[trigger] self.workspaces@[a].0@ != #[trigger] self.workspaces@[b].0@ by {
                        if a != j && b != j {
                            assert(ws[a].0@ != ws[b].0@);
                        } else if a == j {
                            assert(ws[a].0@ != ws[b].0@);
                        } else {
                            assert(ws[a].0@ != ws[b].0@);
                        }
                    }
                }
                return;
            }
            i = i + 1;
        }
        assert(!exists|k: int| 0 <= k < ws.len() && #[trigger] ws[k].0@ == id@);
        self.workspaces.push((id, info));
        assert(workspaces_unique(self.workspaces@)) by {
            assert forall|a: int, b: int| 0 <= a < b < self.workspaces@.len() implies
                #[trigger] self.workspaces@[a].0@ != #[trigger] self.workspaces@[b].0@ by {
                if b < ws.len() {
                    assert(ws[a].0@ != ws[b].0@);
                } else {
                    assert(ws[a].0@ != id@);
                }
            }
        }
    }

    /// Stores a token read from a token file: trimmed, not refreshable and
    /// not expiring. Everything else is kept.
    pub fn apply_token_file(&mut self, contents: &str)
        ensures
            final(self).token matches Some(t) && t.access_token@ == trim(contents@)
                && t.refresh_token@.len() == 0 && t.expires_at@.len() == 0,
            final(self).user == old(self).user,
            final(self).active_workspace == old(self).active_workspace,
            final(self).workspaces == old(self).workspaces,
            final(self).server == old(self).server,
            final(self).oauth == old(self).oauth,
    {
        self.token = Some(TokenInfo {
            access_token: trim_str(contents),
            refresh_token: String::new(),
            expires_at: String::new(),
        });
    }
}

/// The instant (Unix seconds and nanoseconds within the second) of an RFC
/// 3339 timestamp, as `chrono::DateTime::parse_from_rfc3339` reads it, or
/// `None` where it refuses the text.
pub uninterp spec fn rfc3339_instant(text: Seq<char>) -> Option<(i64, u32)>;

/// Parses an RFC 3339 timestamp with `chrono::DateTime::parse_from_rfc3339`
/// and returns its instant in UTC (by the name `rfc3339_instant`).
#[verifier::external_body]
fn parse_rfc3339(text: &str) -> (r: Option<(i64, u32)>)
    ensures
        r == rfc3339_instant(text@),
{
    match chrono::DateTime::parse_from_rfc3339(text) {
        Ok(t) => Some((t.timestamp(), t.timestamp_subsec_nanos())),
        Err(_) => None,
    }
}

/// The current instant from `chrono::Utc::now`, as Unix seconds and
/// nanoseconds within the second. It depends on the clock, so nothing is
/// promised of it.
#[verifier::external_body]
pub(crate) fn utc_now() -> (r: (i64, u32))
{
    let now = chrono::Utc::now();
    (now.timestamp(), now.timestamp_subsec_nanos())
}

/// Whether instant `a` is at or before instant `b`.
pub open spec fn instant_le(a: (int, int), b: (int, int)) -> bool {
    a.0 < b.0 || (a.0 == b.0 && a.1 <= b.1)
}

/// The expiry rule: a token with a blank expiry, or one that does not parse,
/// is not expired; otherwise it is expired when its expiry is at or before
/// sixty seconds after `now`.
pub open spec fn expired_at(expires_at: Seq<char>, parsed: Option<(i64, u32)>, now: (i64, u32)) -> bool {
    if trim(expires_at).len() == 0 {
        false
    } else {
        match parsed {
            None => false,
            Some(exp) => instant_le((exp.0 as int, exp.1 as int), (now.0 + 60, now.1 as int)),
        }
    }
}

/// Whether a refresh token is present (not blank).
pub open spec fn refreshable(refresh_token: Seq<char>) -> bool {
    trim(refresh_token).len() > 0
}

impl TokenInfo {
    /// Whether the token is expired, or within sixty seconds of expiring, at
    /// the instant `now`. A blank or unparseable expiry is not expired.
    pub fn is_expired_at(&self, now: (i64, u32)) -> (b: bool)
        ensures
            b == expired_at(self.expires_at@, rfc3339_instant(self.expires_at@), now),
    {
        let trimmed = trim_str(self.expires_at.as_str());
        if trimmed.as_str().is_empty() {
            return false;
        }
        match parse_rfc3339(self.expires_at.as_str()) {
            Some(exp) => {
                let limit: i128 = now.0 as i128 + 60;
                (exp.0 as i128) < limit || ((exp.0 as i128) == limit && exp.1 <= now.1)
            },
            None => false,
        }
    }

    /// Whether the token is expired (or within sixty seconds of expiring)
    /// now: the expiry rule applied at the instant the clock reads. A blank or
    /// unparseable expiry is never expired.
    pub fn is_expired(&self) -> (b: bool)
        ensures
            exists|now: (i64, u32)| b == #[trigger] expired_at(self.expires_at@, rfc3339_instant(self.expires_at@), now),
            trim(self.expires_at@).len() == 0 ==> !b,
            rfc3339_instant(self.expires_at@) is None ==> !b,
    {
        let now = utc_now();
        let b = self.is_expired_at(now);
        assert(b == expired_at(self.expires_at@, rfc3339_instant(self.expires_at@), now));
        b
    }

    /// Whether this token can be refreshed: its refresh token is not blank.
    pub fn is_refreshable(&self) -> (b: bool)
        ensures
            b == refreshable(self.refresh_token@),
    {
        let trimmed = trim_str(self.refresh_token.as_str());
        !trimmed.as_str().is_empty()
    }
}

impl Config {
    /// Whether the stored token must be refreshed before use at the instant
    /// `now`: it is expired then and can be refreshed.
    pub fn needs_refresh_at(&self, now: (i64, u32)) -> (b: bool)
        ensures
            b == (self.token matches Some(t) && expired_at(t.expires_at@, rfc3339_instant(t.expires_at@), now)
                && refreshable(t.refresh_token@)),
    {
        match &self.token {
            Some(t) => t.is_expired_at(now) && t.is_refreshable(),
            None => false,
        }
    }

    /// Whether the stored token must be refreshed before use now: the rule of
    /// `needs_refresh_at` applied at the instant the clock reads.
    pub fn needs_refresh(&self) -> (b: bool)
        ensures
            exists|now: (i64, u32)| b == #[trigger] self.needs_refresh_at_spec(now),
            !(self.token matches Some(t) && refreshable(t.refresh_token@)) ==> !b,
    {
        let now = utc_now();
        let b = self.needs_refresh_at(now);
        assert(b == self.needs_refresh_at_spec(now));
        b
    }

    /// The rule of `needs_refresh_at`.
    pub open spec fn needs_refresh_at_spec(&self, now: (i64, u32)) -> bool {
        self.token matches Some(t) && expired_at(t.expires_at@, rfc3339_instant(t.expires_at@), now)
            && refreshable(t.refresh_token@)
    }
}

/// The two hosts: without an override the internal host and the public API
/// host differ; with one, both are the override.
pub proof fn lemma_server_override_applies_to_both(server: Option<String>)
    ensures
        server matches Some(s) ==> server_url_of(server) == s@ && v1_server_url_of(server) == s@,
        server is None ==> server_url_of(server) != v1_server_url_of(server),
{
    if server is None {
        reveal_strlit("https://next.saturation.io");
        reveal_strlit("https://next-api.saturation.io");
        assert(DEFAULT_SERVER@[12] != DEFAULT_V1_SERVER@[12]);
    }
}


/// Replacing an entry whose id is not `k` by another whose id is not `k`
/// leaves the lookup of `k` as it was.
proof fn lemma_lookup_update_other(ws: Seq<(String, WorkspaceInfo)>, i: int, p: (String, WorkspaceInfo), k: Seq<char>)
    requires
        0 <= i < ws.len(),
        ws[i].0@ != k,
        p.0@ != k,
    ensures
        workspace_lookup(ws.update(i, p), k) == workspace_lookup(ws, k),
    decreases ws.len(),
{
    let u = ws.update(i, p);
    if i == ws.len() - 1 {
        assert(u.drop_last() =~= ws.drop_last());
    } else {
        assert(u.last() == ws.last());
        if ws.last().0@ != k {
            assert(u.drop_last() =~= ws.drop_last().update(i, p));
            lemma_lookup_update_other(ws.drop_last(), i, p, k);
        }
    }
}

/// Replacing the entry at `i` by one with id `k`, when no later entry has
/// that id, makes the lookup of `k` find the replacement.
proof fn lemma_lookup_update_same(ws: Seq<(String, WorkspaceInfo)>, i: int, p: (String, WorkspaceInfo), k: Seq<char>)
    requires
        0 <= i < ws.len(),
        p.0@ == k,
        forall|j: int| i < j < ws.len() ==> #[trigger] ws[j].0@ != k,
    ensures
        workspace_lookup(ws.update(i, p), k) == Some(p.1),
    decreases ws.len(),
{
    let u = ws.update(i, p);
    if i < ws.len() - 1 {
        assert(u.last() == ws.last());
        assert(ws[ws.len() - 1].0@ != k);
        assert(u.drop_last() =~= ws.drop_last().update(i, p));
        lemma_lookup_update_same(ws.drop_last(), i, p, k);
    }
}

/// Saving a workspace and then looking it up gives back what was saved;
/// every other id looks up as before; the ids stay unique.
pub proof fn lemma_workspace_read_after_write(
    ws: Seq<(String, WorkspaceInfo)>,
    id: String,
    info: WorkspaceInfo,
    other: Seq<char>,
)
    requires
        workspaces_unique(ws),
    ensures
        workspace_lookup(workspaces_with(ws, id, info), id@) == Some(info),
        other != id@ ==> workspace_lookup(workspaces_with(ws, id, info), other) == workspace_lookup(ws, other),
        workspaces_unique(workspaces_with(ws, id, info)),
{
    if exists|i: int| 0 <= i < ws.len() && #[trigger] ws[i].0@ == id@ {
        let i = choose|i: int| 0 <= i < ws.len() && #[trigger] ws[i].0@ == id@;
        assert forall|j: int| i < j < ws.len() implies #[trigger] ws[j].0@ != id@ by {
            assert(ws[i].0@ != ws[j].0@);
        }
        lemma_lookup_update_same(ws, i, (id, info), id@);
        if other != id@ {
            lemma_lookup_update_other(ws, i, (id, info), other);
        }
        let u = ws.update(i, (id, info));
        assert forall|a: int, b: int| 0 <= a < b < u.len() implies #[trigger] u[a].0@ != #[trigger] u[b].0@ by {
            assert(ws[a].0@ != ws[b].0@);
        }
    } else {
        let u = ws.push((id, info));
        assert(u.drop_last() =~= ws);
        assert forall|a: int, b: int| 0 <= a < b < u.len() implies #[trigger] u[a].0@ != #[trigger] u[b].0@ by {
            if b < ws.len() {
                assert(ws[a].0@ != ws[b].0@);
            } else {
                assert(ws[a].0@ != id@);
            }
        }
    }
}

/// A token from a token file (no refresh token, no expiry) is never
/// expired and never refreshed.
pub proof fn lemma_injected_token_never_refreshed(config: Config, now: (i64, u32))
    requires
        config.token matches Some(t) && t.refresh_token@.len() == 0 && t.expires_at@.len() == 0,
    ensures
        !expired_at(config.token->0.expires_at@, rfc3339_instant(config.token->0.expires_at@), now),
        !refreshable(config.token->0.refresh_token@),
        !config.needs_refresh_at_spec(now),
{
    let t = config.token->0;
    assert(trim_start(t.expires_at@) == t.expires_at@);
    assert(trim_start(t.refresh_token@) == t.refresh_token@);
}

} // verus!
