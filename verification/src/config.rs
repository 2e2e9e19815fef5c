//! Per-user settings and the places where a user's files are kept.

use vstd::prelude::*;
use vstd::string::*;
use crate::cache::{cache_dir, news_file, user_cache_dir, weather_file};
use crate::json::{
    bool_member,
    get_bool,
    get_text,
    is_text_member,
    member_from,
    parse_json,
    parsed_json,
    render_json,
    rendered_json,
    text_entry,
    text_member,
    writable,
    Json,
    Member,
};
use crate::text::{chars_of, has_prefix, joined, same_text};

verus! {

/// What a user has chosen to see.
#[derive(Clone, Debug)]
pub struct AppConfig {
    pub city: String,
    pub news_topic: String,
    pub units_celsius: bool,
}

/// Settings as a mathematical value.
pub struct AppConfigView {
    pub city: Seq<char>,
    pub news_topic: Seq<char>,
    pub units_celsius: bool,
}

impl View for AppConfig {
    type V = AppConfigView;

    open spec fn view(&self) -> AppConfigView {
        AppConfigView {
            city: self.city@,
            news_topic: self.news_topic@,
            units_celsius: self.units_celsius,
        }
    }
}

/// The settings of a user who has chosen nothing yet.
pub open spec fn default_config() -> AppConfigView {
    AppConfigView { city: "Bucharest"@, news_topic: "Top Stories"@, units_celsius: true }
}

impl Default for AppConfig {
    fn default() -> (config: AppConfig)
        ensures
            config@ == default_config(),
    {
        AppConfig {
            city: "Bucharest".to_owned(),
            news_topic: "Top Stories".to_owned(),
            units_celsius: true,
        }
    }
}

impl AppConfig {
    /// A second value with the same settings.
    pub fn duplicate(&self) -> (config: AppConfig)
        ensures
            config@ == self@,
    {
        AppConfig {
            city: self.city.clone(),
            news_topic: self.news_topic.clone(),
            units_celsius: self.units_celsius,
        }
    }
}

/// The application's directory below a home directory.
pub open spec fn base_of(home: Seq<char>) -> Seq<char> {
    home + "/tock-workshop/slint_rust"@
}

/// The directory that holds every user's settings.
pub open spec fn users_dir(home: Seq<char>) -> Seq<char> {
    base_of(home) + "/users"@
}

/// The directory of one user's settings.
pub open spec fn user_dir(home: Seq<char>, user: Seq<char>) -> Seq<char> {
    users_dir(home) + "/"@ + user
}

/// The settings file of one user.
pub open spec fn user_config_file(home: Seq<char>, user: Seq<char>) -> Seq<char> {
    user_dir(home, user) + "/config.json"@
}

/// The settings file that is read before anyone has logged in.
pub open spec fn shared_config_file(home: Seq<char>) -> Seq<char> {
    base_of(home) + "/config.json"@
}

/// Whether `path` is `dir` itself or lies below it.
pub open spec fn within(dir: Seq<char>, path: Seq<char>) -> bool {
    path == dir || has_prefix(path, dir + "/"@)
}

/// Whether a user name is one path component of its own: it is not empty,
/// holds no `/`, and is neither `.` nor `..`, which name the directory
/// itself and the one above it.
pub open spec fn is_component(user: Seq<char>) -> bool {
    &&& user.len() > 0
    &&& forall|i: int| 0 <= i < user.len() ==> #[trigger] user[i] != '/'
    &&& user != "."@
    &&& user != ".."@
}

/// Whether a path starts at the root of the file system.
pub open spec fn is_absolute(path: Seq<char>) -> bool {
    path.len() > 0 && path[0] == '/'
}

/// The application's directory below a home directory.
pub fn base_dir(home: &str) -> (path: String)
    ensures
        path@ == base_of(home@),
{
    joined(home, "/tock-workshop/slint_rust")
}

/// The directory that holds every user's settings.
pub fn users_base_dir(home: &str) -> (path: String)
    ensures
        path@ == users_dir(home@),
{
    let mut path = base_dir(home);
    path.append("/users");
    path
}

/// The settings file that is read before anyone has logged in.
pub fn config_path(home: &str) -> (path: String)
    ensures
        path@ == shared_config_file(home@),
{
    let mut path = base_dir(home);
    path.append("/config.json");
    path
}

/// The directory of one user's settings.
pub fn user_root(home: &str, user: &str) -> (path: String)
    ensures
        path@ == user_dir(home@, user@),
{
    let mut path = users_base_dir(home);
    path.append("/");
    path.append(user);
    path
}

/// The settings file of one user.
pub fn config_path_for(home: &str, user: &str) -> (path: String)
    ensures
        path@ == user_config_file(home@, user@),
{
    let mut path = user_root(home, user);
    path.append("/config.json");
    path
}

/// The directories whose removal deletes a user's files: the settings
/// directory and the cache directory, in this order.
pub fn delete_user_tree(home: &str, user: &str) -> (dirs: Vec<String>)
    ensures
        dirs@.len() == 2,
        dirs@[0]@ == user_dir(home@, user@),
        dirs@[1]@ == cache_dir(user@),
{
    let mut dirs: Vec<String> = Vec::new();
    dirs.push(user_root(home, user));
    dirs.push(user_cache_dir(user));
    dirs
}

/// Whether a user name is one path component of its own.
pub fn is_single_component(user: &str) -> (r: bool)
    ensures
        r == is_component(user@),
{
    let chars = chars_of(user);
    if chars.len() == 0 || same_text(user, ".") || same_text(user, "..") {
        return false;
    }
    let mut i: usize = 0;
    while i < chars.len()
        invariant
            i <= chars.len(),
            chars@ == user@,
            forall|k: int| 0 <= k < i ==> #[trigger] chars@[k] != '/',
        decreases chars.len() - i,
    {
        if chars[i] == '/' {
            return false;
        }
        i += 1;
    }
    true
}

/// Whether a home directory starts at the root of the file system.
pub fn is_absolute_path(home: &str) -> (r: bool)
    ensures
        r == is_absolute(home@),
{
    let chars = chars_of(home);
    chars.len() > 0 && chars[0] == '/'
}

/// A path that differs from a directory in one character of the directory
/// is neither the directory nor below it.
proof fn lemma_not_within(dir: Seq<char>, path: Seq<char>, k: int)
    requires
        0 <= k < dir.len(),
        k < path.len(),
        dir[k] != path[k],
    ensures
        !within(dir, path),
{
    let below = dir + "/"@;
    if has_prefix(path, below) {
        assert(path.subrange(0, below.len() as int)[k] == path[k]);
        assert(below[k] == dir[k]);
    }
}

/// If `stem + a + "/"` begins `stem + b + tail`, where neither name holds a
/// `/` and the tail starts with one, the two names are the same.
proof fn lemma_component_prefix(
    stem: Seq<char>,
    a: Seq<char>,
    b: Seq<char>,
    tail: Seq<char>,
)
    requires
        is_component(a),
        is_component(b),
        tail.len() > 0,
        tail[0] == '/',
        has_prefix(stem + b + tail, stem + a + seq!['/']),
    ensures
        a == b,
{
    let path = stem + b + tail;
    let dir = stem + a + seq!['/'];
    let n = stem.len() as int;
    assert(path.subrange(0, dir.len() as int) == dir);
    assert forall|k: int| 0 <= k < dir.len() implies path[k] == dir[k] by {
        assert(path.subrange(0, dir.len() as int)[k] == path[k]);
    }
    if a.len() < b.len() {
        let k = n + a.len();
        assert(dir[k] == '/');
        assert(path[k] == b[a.len() as int]);
    } else if b.len() < a.len() {
        let k = n + b.len();
        assert(path[k] == tail[0]);
        assert(dir[k] == a[b.len() as int]);
    } else {
        assert forall|i: int| 0 <= i < a.len() implies a[i] == b[i] by {
            assert(path[n + i] == b[i]);
            assert(dir[n + i] == a[i]);
        }
        assert(a =~= b);
    }
}

/// Deleting one user's directories leaves everything else alone. For a
/// home directory that starts at the root and two different user names that
/// are path components of their own, neither the settings directory nor the
/// cache directory of the first holds the settings file or a cache file of
/// the second, nor the settings file that all share.
pub proof fn lemma_deletion_spares_others(home: Seq<char>, deleted: Seq<char>, other: Seq<char>)
    requires
        is_absolute(home),
        is_component(deleted),
        is_component(other),
        deleted != other,
    ensures
        !within(user_dir(home, deleted), user_config_file(home, other)),
        !within(user_dir(home, deleted), weather_file(other)),
        !within(user_dir(home, deleted), news_file(other)),
        !within(user_dir(home, deleted), shared_config_file(home)),
        !within(cache_dir(deleted), user_config_file(home, other)),
        !within(cache_dir(deleted), weather_file(other)),
        !within(cache_dir(deleted), news_file(other)),
        !within(cache_dir(deleted), shared_config_file(home)),
{
    reveal_strlit("/");
    reveal_strlit("/users");
    reveal_strlit("/tock-workshop/slint_rust");
    reveal_strlit("/config.json");
    reveal_strlit("/weather.json");
    reveal_strlit("/news.json");
    reveal_strlit("cache/users/");
    assert("/"@ =~= seq!['/']);
    let base = base_of(home);
    let stem = users_dir(home) + "/"@;
    let file = user_config_file(home, other);
    let shared = shared_config_file(home);
    let dir = user_dir(home, deleted);
    let cstem = "cache/users/"@;
    let wfile = weather_file(other);
    let nfile = news_file(other);
    let cdir = cache_dir(deleted);

    // The same tree: the names decide.
    assert(file =~= stem + other + "/config.json"@);
    assert(dir + "/"@ =~= stem + deleted + seq!['/']);
    if has_prefix(file, dir + "/"@) {
        lemma_component_prefix(stem, deleted, other, "/config.json"@);
    }
    if file == dir {
        assert(file.len() == dir.len());
        assert(file[(stem.len() + other.len()) as int] == '/');
        assert(dir[(stem.len() + other.len()) as int] == deleted[other.len() as int]);
    }
    assert(wfile =~= cstem + other + "/weather.json"@);
    assert(nfile =~= cstem + other + "/news.json"@);
    assert(cdir + "/"@ =~= cstem + deleted + seq!['/']);
    if has_prefix(wfile, cdir + "/"@) {
        lemma_component_prefix(cstem, deleted, other, "/weather.json"@);
    }
    if has_prefix(nfile, cdir + "/"@) {
        lemma_component_prefix(cstem, deleted, other, "/news.json"@);
    }
    if wfile == cdir {
        assert(wfile[(cstem.len() + other.len()) as int] == '/');
        assert(cdir[(cstem.len() + other.len()) as int] == deleted[other.len() as int]);
    }
    if nfile == cdir {
        assert(nfile[(cstem.len() + other.len()) as int] == '/');
        assert(cdir[(cstem.len() + other.len()) as int] == deleted[other.len() as int]);
    }

    // The shared settings file stands beside the users directory.
    let k = base.len() as int + 1;
    assert(dir =~= base + "/users"@ + "/"@ + deleted);
    assert(dir[k] == "/users"@[1]);
    assert(shared[k] == "/config.json"@[1]);
    lemma_not_within(dir, shared, k);

    // The other tree: one starts at the root, the other does not.
    assert(dir[0] == home[0]);
    assert(file[0] == home[0]);
    assert(shared[0] == home[0]);
    assert(cdir[0] == cstem[0]);
    assert(wfile[0] == cstem[0]);
    assert(nfile[0] == cstem[0]);
    lemma_not_within(dir, wfile, 0);
    lemma_not_within(dir, nfile, 0);
    lemma_not_within(cdir, file, 0);
    lemma_not_within(cdir, shared, 0);
}

/// The settings that a document is, if it is one: an object with the texts
/// `city` and `news_topic` and the truth value `units_celsius`.
pub open spec fn decoded_config(j: Json) -> Option<AppConfigView> {
    match j {
        Json::Object(ms) => match (
            text_member(ms@, "city"@),
            text_member(ms@, "news_topic"@),
            bool_member(ms@, "units_celsius"@),
        ) {
            (Some(city), Some(news_topic), Some(units_celsius)) => Some(
                AppConfigView { city, news_topic, units_celsius },
            ),
            _ => None,
        },
        _ => None,
    }
}

/// Whether a document is the one written for settings: an object of `city`,
/// `news_topic` and `units_celsius`, in this order.
pub open spec fn is_config_document(j: Json, c: AppConfigView) -> bool {
    j matches Json::Object(ms) && ms@.len() == 3 && is_text_member(ms@[0], "city"@, c.city)
        && is_text_member(ms@[1], "news_topic"@, c.news_topic) && ms@[2].key@ == "units_celsius"@
        && ms@[2].value == Json::Bool(c.units_celsius)
}

/// What the content of a settings file reads as: the settings of the
/// document that the content is, and the default settings when there is no
/// content or it is no settings document.
pub open spec fn config_read(content: Option<Seq<char>>) -> AppConfigView {
    match content {
        Some(text) => match parsed_json(text) {
            Some(doc) => match decoded_config(doc) {
                Some(c) => c,
                None => default_config(),
            },
            None => default_config(),
        },
        None => default_config(),
    }
}

/// Written settings read back as the settings they were written for.
pub proof fn lemma_config_round_trip(j: Json, c: AppConfigView)
    requires
        is_config_document(j, c),
    ensures
        decoded_config(j) == Some(c),
{
    reveal_strlit("city");
    reveal_strlit("news_topic");
    reveal_strlit("units_celsius");
    assert("city"@.len() == 4 && "news_topic"@.len() == 10 && "units_celsius"@.len() == 13);
    reveal_with_fuel(member_from, 4);
}

/// The settings that a document is, if it is one.
pub fn decode_config(j: &Json) -> (r: Option<AppConfig>)
    ensures
        match r {
            Some(c) => decoded_config(*j) == Some(c@),
            None => decoded_config(*j) is None,
        },
{
    match j {
        Json::Object(ms) => {
            let city = get_text(ms, "city");
            let news_topic = get_text(ms, "news_topic");
            let units_celsius = get_bool(ms, "units_celsius");
            match (city, news_topic, units_celsius) {
                (Some(city), Some(news_topic), Some(units_celsius)) => Some(
                    AppConfig { city, news_topic, units_celsius },
                ),
                _ => None,
            }
        },
        _ => None,
    }
}

/// The document written for settings.
pub fn encode_config(config: &AppConfig) -> (j: Json)
    ensures
        is_config_document(j, config@),
        writable(j),
{
    proof {
        reveal_with_fuel(writable, 3);
    }
    let mut ms: Vec<Member> = Vec::new();
    ms.push(text_entry("city", config.city.as_str()));
    ms.push(text_entry("news_topic", config.news_topic.as_str()));
    ms.push(Member { key: "units_celsius".to_owned(), value: Json::Bool(config.units_celsius) });
    Json::Object(ms)
}

/// Reads settings from the content of their file, `None` standing for a
/// file that is missing or unreadable. Settings that are absent or corrupt
/// read as the default settings.
pub fn load_config(content: Option<&str>) -> (config: AppConfig)
    ensures
        config@ == config_read(
            match content {
                Some(text) => Some(text@),
                None => None,
            },
        ),
{
    match content {
        Some(text) => match parse_json(text) {
            Some(doc) => match decode_config(&doc) {
                Some(config) => config,
                None => AppConfig::default(),
            },
            None => AppConfig::default(),
        },
        None => AppConfig::default(),
    }
}

/// The content of the file that keeps settings: the text of the document
/// written for them.
pub fn save_config(config: &AppConfig) -> (text: String)
    ensures
        exists|doc: Json| is_config_document(doc, config@) && text@ == #[trigger] rendered_json(doc),
{
    let doc = encode_config(config);
    render_json(&doc)
}

} // verus!
