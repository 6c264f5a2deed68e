//! The configuration model: the sections of the configuration file, the
//! fixed schema they are read against, and the one enrichment rule (a secret
//! fallback) applied after parsing.

use vstd::prelude::*;

use crate::yaml::{lookup, parse_document, spec_lookup, yaml_document, Yaml};

verus! {

// ---------------------------------------------------------------------------
// The configuration value and its mathematical view
// ---------------------------------------------------------------------------

/// Bind settings of the serving process. All fields are required.
#[derive(Debug)]
pub struct Server {
    pub listen: String,
    pub port: u16,
    pub host: String,
}

/// Where the wiki content lives. Both fields are required.
#[derive(Debug)]
pub struct Wiki {
    pub repository: String,
    pub path: String,
}

/// Where the blog content lives: the same shape as [`Wiki`], kept as a
/// distinct type. Both fields are required.
#[derive(Debug)]
pub struct Blog {
    pub repository: String,
    pub path: String,
}

/// Content sources and the optional webhook secret. The secret is the only
/// field subject to fallback resolution; see [`Config::with_secret_fallback`].
#[derive(Debug)]
pub struct Content {
    pub secret: Option<String>,
    pub wiki: Wiki,
    pub blog: Blog,
}

/// Purely informational contact handles; every field is optional.
#[derive(Debug, Clone)]
pub struct Contact {
    pub mail: Option<String>,
    pub matrix: Option<String>,
    pub threema: Option<String>,
}

/// Purely informational front-page texts; every field is optional.
#[derive(Debug, Clone)]
pub struct IndexPage {
    pub slogan: Option<String>,
    pub title: Option<String>,
    pub skills: Option<Vec<String>>,
    pub links: Option<Vec<String>>,
}

/// The root configuration value, assembled once at startup.
#[derive(Debug)]
pub struct Config {
    pub server: Server,
    pub content: Content,
    pub contact: Contact,
    pub index: IndexPage,
}

/// Mathematical view of [`Server`].
#[verifier::ext_equal]
pub struct ServerView {
    pub listen: Seq<char>,
    pub port: u16,
    pub host: Seq<char>,
}

/// Mathematical view of [`Wiki`].
#[verifier::ext_equal]
pub struct WikiView {
    pub repository: Seq<char>,
    pub path: Seq<char>,
}

/// Mathematical view of [`Blog`].
#[verifier::ext_equal]
pub struct BlogView {
    pub repository: Seq<char>,
    pub path: Seq<char>,
}

/// Mathematical view of [`Content`].
#[verifier::ext_equal]
pub struct ContentView {
    pub secret: Option<Seq<char>>,
    pub wiki: WikiView,
    pub blog: BlogView,
}

/// Mathematical view of [`Contact`].
#[verifier::ext_equal]
pub struct ContactView {
    pub mail: Option<Seq<char>>,
    pub matrix: Option<Seq<char>>,
    pub threema: Option<Seq<char>>,
}

/// Mathematical view of [`IndexPage`].
#[verifier::ext_equal]
pub struct IndexPageView {
    pub slogan: Option<Seq<char>>,
    pub title: Option<Seq<char>>,
    pub skills: Option<Seq<Seq<char>>>,
    pub links: Option<Seq<Seq<char>>>,
}

/// Mathematical view of [`Config`].
#[verifier::ext_equal]
pub struct ConfigView {
    pub server: ServerView,
    pub content: ContentView,
    pub contact: ContactView,
    pub index: IndexPageView,
}

impl View for Server {
    type V = ServerView;

    open spec fn view(&self) -> ServerView {
        ServerView { listen: self.listen@, port: self.port, host: self.host@ }
    }
}

impl View for Wiki {
    type V = WikiView;

    open spec fn view(&self) -> WikiView {
        WikiView { repository: self.repository@, path: self.path@ }
    }
}

impl View for Blog {
    type V = BlogView;

    open spec fn view(&self) -> BlogView {
        BlogView { repository: self.repository@, path: self.path@ }
    }
}

impl View for Content {
    type V = ContentView;

    open spec fn view(&self) -> ContentView {
        ContentView { secret: self.secret.deep_view(), wiki: self.wiki@, blog: self.blog@ }
    }
}

impl View for Contact {
    type V = ContactView;

    open spec fn view(&self) -> ContactView {
        ContactView {
            mail: self.mail.deep_view(),
            matrix: self.matrix.deep_view(),
            threema: self.threema.deep_view(),
        }
    }
}

impl View for IndexPage {
    type V = IndexPageView;

    open spec fn view(&self) -> IndexPageView {
        IndexPageView {
            slogan: self.slogan.deep_view(),
            title: self.title.deep_view(),
            skills: self.skills.deep_view(),
            links: self.links.deep_view(),
        }
    }
}

impl View for Config {
    type V = ConfigView;

    open spec fn view(&self) -> ConfigView {
        ConfigView {
            server: self.server@,
            content: self.content@,
            contact: self.contact@,
            index: self.index@,
        }
    }
}

/// A syntax or schema failure while reading a configuration document; the
/// message carries the diagnostic. A missing or unreadable file is not a
/// `ParseError`: that condition is fatal at the call site, which never gets
/// as far as parsing.
#[derive(Debug)]
pub struct ParseError {
    pub message: String,
}

impl ParseError {
    fn new(message: &str) -> (r: ParseError)
        ensures
            r.message@ == message@,
    {
        ParseError { message: message.to_owned() }
    }
}

// ---------------------------------------------------------------------------
// The schema, as spec functions over the document tree
// ---------------------------------------------------------------------------

/// A required string field: present and a string, else nothing.
pub open spec fn req_str(entries: Seq<(Yaml, Yaml)>, key: Seq<char>) -> Option<Seq<char>> {
    match spec_lookup(entries, key) {
        Some(Yaml::Str(s)) => Some(s@),
        _ => None,
    }
}

/// A required port field: present and an integer within the 16-bit unsigned
/// range, else nothing.
pub open spec fn req_port(entries: Seq<(Yaml, Yaml)>, key: Seq<char>) -> Option<u16> {
    match spec_lookup(entries, key) {
        Some(Yaml::Int(i)) => if 0 <= i && i <= 65535 {
            Some(i as u16)
        } else {
            None
        },
        _ => None,
    }
}

/// An optional string field. Absent or null counts as absent (inner `None`);
/// a string counts as present; any other value is a schema violation (outer
/// `None`).
pub open spec fn opt_str(entries: Seq<(Yaml, Yaml)>, key: Seq<char>) -> Option<Option<Seq<char>>> {
    match spec_lookup(entries, key) {
        None => Some(None),
        Some(Yaml::Null) => Some(None),
        Some(Yaml::Str(s)) => Some(Some(s@)),
        Some(_) => None,
    }
}

/// The view of a string node; arbitrary on any other node.
pub open spec fn str_view_of(y: Yaml) -> Seq<char> {
    match y {
        Yaml::Str(s) => s@,
        _ => Seq::empty(),
    }
}

/// Every item of the sequence is a string node.
pub open spec fn all_strings(items: Seq<Yaml>) -> bool {
    forall|j: int| 0 <= j < items.len() ==> items[j] is Str
}

/// The items of a sequence of string nodes, as string views, in order.
pub open spec fn string_views(items: Seq<Yaml>) -> Seq<Seq<char>> {
    Seq::new(items.len(), |j: int| str_view_of(items[j]))
}

/// An optional list-of-strings field. Absent or null counts as absent; a
/// sequence whose items are all strings counts as present; anything else is a
/// schema violation.
pub open spec fn opt_str_list(
    entries: Seq<(Yaml, Yaml)>,
    key: Seq<char>,
) -> Option<Option<Seq<Seq<char>>>> {
    match spec_lookup(entries, key) {
        None => Some(None),
        Some(Yaml::Null) => Some(None),
        Some(Yaml::List(items)) => if all_strings(items@) {
            Some(Some(string_views(items@)))
        } else {
            None
        },
        Some(_) => None,
    }
}

/// What the `server` section of a document denotes, if well-formed.
pub open spec fn spec_server(y: Yaml) -> Option<ServerView> {
    match y {
        Yaml::Mapping(entries) => match (
            req_str(entries@, "listen"@),
            req_port(entries@, "port"@),
            req_str(entries@, "host"@),
        ) {
            (Some(listen), Some(port), Some(host)) => Some(ServerView { listen, port, host }),
            _ => None,
        },
        _ => None,
    }
}

/// What the `wiki` subsection denotes, if well-formed.
pub open spec fn spec_wiki(y: Yaml) -> Option<WikiView> {
    match y {
        Yaml::Mapping(entries) => match (
            req_str(entries@, "repository"@),
            req_str(entries@, "path"@),
        ) {
            (Some(repository), Some(path)) => Some(WikiView { repository, path }),
            _ => None,
        },
        _ => None,
    }
}

/// What the `blog` subsection denotes, if well-formed.
pub open spec fn spec_blog(y: Yaml) -> Option<BlogView> {
    match y {
        Yaml::Mapping(entries) => match (
            req_str(entries@, "repository"@),
            req_str(entries@, "path"@),
        ) {
            (Some(repository), Some(path)) => Some(BlogView { repository, path }),
            _ => None,
        },
        _ => None,
    }
}

/// What the `content` section denotes, if well-formed. The secret here is
/// exactly the document's: the fallback is a separate, later step.
pub open spec fn spec_content(y: Yaml) -> Option<ContentView> {
    match y {
        Yaml::Mapping(entries) => match (
            opt_str(entries@, "secret"@),
            spec_lookup(entries@, "wiki"@),
            spec_lookup(entries@, "blog"@),
        ) {
            (Some(secret), Some(w), Some(b)) => match (spec_wiki(w), spec_blog(b)) {
                (Some(wiki), Some(blog)) => Some(ContentView { secret, wiki, blog }),
                _ => None,
            },
            _ => None,
        },
        _ => None,
    }
}

/// What the `contact` section denotes, if well-formed.
pub open spec fn spec_contact(y: Yaml) -> Option<ContactView> {
    match y {
        Yaml::Mapping(entries) => match (
            opt_str(entries@, "mail"@),
            opt_str(entries@, "matrix"@),
            opt_str(entries@, "threema"@),
        ) {
            (Some(mail), Some(matrix), Some(threema)) => Some(
                ContactView { mail, matrix, threema },
            ),
            _ => None,
        },
        _ => None,
    }
}

/// What the `index` section denotes, if well-formed.
pub open spec fn spec_index(y: Yaml) -> Option<IndexPageView> {
    match y {
        Yaml::Mapping(entries) => match (
            opt_str(entries@, "slogan"@),
            opt_str(entries@, "title"@),
            opt_str_list(entries@, "skills"@),
            opt_str_list(entries@, "links"@),
        ) {
            (Some(slogan), Some(title), Some(skills), Some(links)) => Some(
                IndexPageView { slogan, title, skills, links },
            ),
            _ => None,
        },
        _ => None,
    }
}

/// What a whole document denotes under the configuration schema: the
/// configuration it describes, or nothing if any required field is missing or
/// any field is of the wrong type.
pub open spec fn spec_config_of(doc: Yaml) -> Option<ConfigView> {
    match doc {
        Yaml::Mapping(entries) => match (
            spec_lookup(entries@, "server"@),
            spec_lookup(entries@, "content"@),
            spec_lookup(entries@, "contact"@),
            spec_lookup(entries@, "index"@),
        ) {
            (Some(sv), Some(cn), Some(ct), Some(ix)) => match (
                spec_server(sv),
                spec_content(cn),
                spec_contact(ct),
                spec_index(ix),
            ) {
                (Some(server), Some(content), Some(contact), Some(index)) => Some(
                    ConfigView { server, content, contact, index },
                ),
                _ => None,
            },
            _ => None,
        },
        _ => None,
    }
}

// ---------------------------------------------------------------------------
// Reading fields out of a mapping's entry list
// ---------------------------------------------------------------------------

fn get_req_str(entries: &Vec<(Yaml, Yaml)>, key: &str) -> (r: Option<String>)
    ensures
        match r {
            Some(s) => req_str(entries@, key@) == Some(s@),
            None => req_str(entries@, key@) is None,
        },
{
    let k = key.to_owned();
    match lookup(entries, &k) {
        Some(Yaml::Str(s)) => Some(s.clone()),
        _ => None,
    }
}

fn get_port(entries: &Vec<(Yaml, Yaml)>, key: &str) -> (r: Option<u16>)
    ensures
        match r {
            Some(p) => req_port(entries@, key@) == Some(p),
            None => req_port(entries@, key@) is None,
        },
{
    let k = key.to_owned();
    match lookup(entries, &k) {
        Some(Yaml::Int(i)) => if 0 <= *i && *i <= 65535 {
            Some(*i as u16)
        } else {
            None
        },
        _ => None,
    }
}

fn get_opt_str(entries: &Vec<(Yaml, Yaml)>, key: &str) -> (r: Option<Option<String>>)
    ensures
        match r {
            Some(v) => opt_str(entries@, key@) == Some(v.deep_view()),
            None => opt_str(entries@, key@) is None,
        },
{
    let k = key.to_owned();
    match lookup(entries, &k) {
        None => Some(None),
        Some(Yaml::Null) => Some(None),
        Some(Yaml::Str(s)) => Some(Some(s.clone())),
        Some(_) => None,
    }
}

fn parse_str_list(items: &Vec<Yaml>) -> (r: Option<Vec<String>>)
    ensures
        match r {
            Some(v) => all_strings(items@) && v.deep_view() == string_views(items@),
            None => !all_strings(items@),
        },
{
    let n = items.len();
    let mut out: Vec<String> = Vec::new();
    let mut i: usize = 0;
    while i < n
        invariant
            i <= n,
            n == items@.len(),
            out@.len() == i,
            forall|j: int| 0 <= j < i ==> items@[j] is Str,
            forall|j: int| 0 <= j < i ==> out@[j]@ == str_view_of(items@[j]),
        decreases n - i,
    {
        match &items[i] {
            Yaml::Str(s) => {
                out.push(s.clone());
            },
            _ => {
                proof {
                    assert(!(items@[i as int] is Str));
                }
                return None;
            },
        }
        i = i + 1;
    }
    proof {
        assert(out.deep_view() =~= string_views(items@));
    }
    Some(out)
}

fn get_opt_str_list(entries: &Vec<(Yaml, Yaml)>, key: &str) -> (r: Option<Option<Vec<String>>>)
    ensures
        match r {
            Some(v) => opt_str_list(entries@, key@) == Some(v.deep_view()),
            None => opt_str_list(entries@, key@) is None,
        },
{
    let k = key.to_owned();
    match lookup(entries, &k) {
        None => Some(None),
        Some(Yaml::Null) => Some(None),
        Some(Yaml::List(items)) => match parse_str_list(items) {
            Some(v) => Some(Some(v)),
            None => None,
        },
        Some(_) => None,
    }
}

// ---------------------------------------------------------------------------
// Parsing the sections
// ---------------------------------------------------------------------------

/// Reads the `server` section out of its document node.
pub fn parse_server(y: &Yaml) -> (r: Result<Server, ParseError>)
    ensures
        match r {
            Ok(s) => spec_server(*y) == Some(s@),
            Err(_) => spec_server(*y) is None,
        },
{
    match y {
        Yaml::Mapping(entries) => {
            match (get_req_str(entries, "listen"), get_port(entries, "port"), get_req_str(
                entries,
                "host",
            )) {
                (Some(listen), Some(port), Some(host)) => Ok(Server { listen, port, host }),
                _ => Err(
                    ParseError::new(
                        "server: a required field (listen, port, host) is missing or mistyped",
                    ),
                ),
            }
        },
        _ => Err(ParseError::new("server: expected a mapping")),
    }
}

/// Reads the `wiki` subsection out of its document node.
pub fn parse_wiki(y: &Yaml) -> (r: Result<Wiki, ParseError>)
    ensures
        match r {
            Ok(w) => spec_wiki(*y) == Some(w@),
            Err(_) => spec_wiki(*y) is None,
        },
{
    match y {
        Yaml::Mapping(entries) => {
            match (get_req_str(entries, "repository"), get_req_str(entries, "path")) {
                (Some(repository), Some(path)) => Ok(Wiki { repository, path }),
                _ => Err(
                    ParseError::new(
                        "content.wiki: a required field (repository, path) is missing or mistyped",
                    ),
                ),
            }
        },
        _ => Err(ParseError::new("content.wiki: expected a mapping")),
    }
}

/// Reads the `blog` subsection out of its document node.
pub fn parse_blog(y: &Yaml) -> (r: Result<Blog, ParseError>)
    ensures
        match r {
            Ok(b) => spec_blog(*y) == Some(b@),
            Err(_) => spec_blog(*y) is None,
        },
{
    match y {
        Yaml::Mapping(entries) => {
            match (get_req_str(entries, "repository"), get_req_str(entries, "path")) {
                (Some(repository), Some(path)) => Ok(Blog { repository, path }),
                _ => Err(
                    ParseError::new(
                        "content.blog: a required field (repository, path) is missing or mistyped",
                    ),
                ),
            }
        },
        _ => Err(ParseError::new("content.blog: expected a mapping")),
    }
}

/// Reads the `content` section out of its document node.
pub fn parse_content(y: &Yaml) -> (r: Result<Content, ParseError>)
    ensures
        match r {
            Ok(c) => spec_content(*y) == Some(c@),
            Err(_) => spec_content(*y) is None,
        },
{
    match y {
        Yaml::Mapping(entries) => {
            let secret = match get_opt_str(entries, "secret") {
                Some(s) => s,
                None => {
                    return Err(ParseError::new("content.secret: expected a string or nothing"));
                },
            };
            let w = match lookup(entries, &"wiki".to_owned()) {
                Some(v) => v,
                None => {
                    return Err(ParseError::new("content.wiki: required section missing"));
                },
            };
            let b = match lookup(entries, &"blog".to_owned()) {
                Some(v) => v,
                None => {
                    return Err(ParseError::new("content.blog: required section missing"));
                },
            };
            let wiki = match parse_wiki(w) {
                Ok(v) => v,
                Err(e) => {
                    return Err(e);
                },
            };
            let blog = match parse_blog(b) {
                Ok(v) => v,
                Err(e) => {
                    return Err(e);
                },
            };
            Ok(Content { secret, wiki, blog })
        },
        _ => Err(ParseError::new("content: expected a mapping")),
    }
}

/// Reads the `contact` section out of its document node.
pub fn parse_contact(y: &Yaml) -> (r: Result<Contact, ParseError>)
    ensures
        match r {
            Ok(c) => spec_contact(*y) == Some(c@),
            Err(_) => spec_contact(*y) is None,
        },
{
    match y {
        Yaml::Mapping(entries) => {
            match (get_opt_str(entries, "mail"), get_opt_str(entries, "matrix"), get_opt_str(
                entries,
                "threema",
            )) {
                (Some(mail), Some(matrix), Some(threema)) => Ok(Contact { mail, matrix, threema }),
                _ => Err(
                    ParseError::new("contact: a field present with other than a string value"),
                ),
            }
        },
        _ => Err(ParseError::new("contact: expected a mapping")),
    }
}

/// Reads the `index` section out of its document node.
pub fn parse_index(y: &Yaml) -> (r: Result<IndexPage, ParseError>)
    ensures
        match r {
            Ok(p) => spec_index(*y) == Some(p@),
            Err(_) => spec_index(*y) is None,
        },
{
    match y {
        Yaml::Mapping(entries) => {
            match (get_opt_str(entries, "slogan"), get_opt_str(entries, "title"), get_opt_str_list(
                entries,
                "skills",
            ), get_opt_str_list(entries, "links")) {
                (Some(slogan), Some(title), Some(skills), Some(links)) => Ok(
                    IndexPage { slogan, title, skills, links },
                ),
                _ => Err(
                    ParseError::new("index: a field present with other than its expected type"),
                ),
            }
        },
        _ => Err(ParseError::new("index: expected a mapping")),
    }
}

// ---------------------------------------------------------------------------
// Loading and enrichment
// ---------------------------------------------------------------------------

/// What the secret-fallback step yields: the configuration unchanged when the
/// document supplied a secret, else the same configuration with the fallback
/// (present or not) as its secret.
pub open spec fn spec_with_fallback(c: ConfigView, fallback: Option<Seq<char>>) -> ConfigView {
    if c.content.secret is Some {
        c
    } else {
        ConfigView { content: ContentView { secret: fallback, ..c.content }, ..c }
    }
}

impl Config {
    /// Reads a whole parsed document against the configuration schema.
    pub fn from_yaml(doc: &Yaml) -> (r: Result<Config, ParseError>)
        ensures
            match r {
                Ok(c) => spec_config_of(*doc) == Some(c@),
                Err(_) => spec_config_of(*doc) is None,
            },
    {
        match doc {
            Yaml::Mapping(entries) => {
                let sv = match lookup(entries, &"server".to_owned()) {
                    Some(v) => v,
                    None => {
                        return Err(ParseError::new("server: required section missing"));
                    },
                };
                let cn = match lookup(entries, &"content".to_owned()) {
                    Some(v) => v,
                    None => {
                        return Err(ParseError::new("content: required section missing"));
                    },
                };
                let ct = match lookup(entries, &"contact".to_owned()) {
                    Some(v) => v,
                    None => {
                        return Err(ParseError::new("contact: required section missing"));
                    },
                };
                let ix = match lookup(entries, &"index".to_owned()) {
                    Some(v) => v,
                    None => {
                        return Err(ParseError::new("index: required section missing"));
                    },
                };
                let server = match parse_server(sv) {
                    Ok(v) => v,
                    Err(e) => {
                        return Err(e);
                    },
                };
                let content = match parse_content(cn) {
                    Ok(v) => v,
                    Err(e) => {
                        return Err(e);
                    },
                };
                let contact = match parse_contact(ct) {
                    Ok(v) => v,
                    Err(e) => {
                        return Err(e);
                    },
                };
                let index = match parse_index(ix) {
                    Ok(v) => v,
                    Err(e) => {
                        return Err(e);
                    },
                };
                Ok(Config { server, content, contact, index })
            },
            _ => Err(ParseError::new("expected a mapping at the document root")),
        }
    }

    /// Parses a document text and reads it against the schema. Returns the
    /// configuration exactly as the document describes it — the secret
    /// fallback is a separate, later step — or a parse error when the text is
    /// not well-formed or does not fit the schema; no partial configuration
    /// escapes.
    pub fn from_str(text: &str) -> (r: Result<Config, ParseError>)
        ensures
            match r {
                Ok(c) => yaml_document(text@) matches Some(d) && spec_config_of(d) == Some(c@),
                Err(_) => (yaml_document(text@) matches Some(d) ==> spec_config_of(d) is None),
            },
    {
        match parse_document(text) {
            Ok(doc) => Config::from_yaml(&doc),
            Err(message) => Err(ParseError { message }),
        }
    }

    /// The one enrichment step: when the document gave no secret, the given
    /// fallback (read from the environment by the caller) becomes the secret;
    /// a secret from the document always stands. Never fails: a configuration
    /// without a secret is valid.
    pub fn with_secret_fallback(self, fallback: Option<String>) -> (r: Config)
        ensures
            r@ == spec_with_fallback(self@, fallback.deep_view()),
    {
        match self.content.secret {
            Some(s) => Config {
                content: Content { secret: Some(s), wiki: self.content.wiki, blog: self.content.blog },
                server: self.server,
                contact: self.contact,
                index: self.index,
            },
            None => Config {
                content: Content { secret: fallback, wiki: self.content.wiki, blog: self.content.blog },
                server: self.server,
                contact: self.contact,
                index: self.index,
            },
        }
    }
}

// ---------------------------------------------------------------------------
// Well-formedness, and what loading guarantees of it
// ---------------------------------------------------------------------------

/// The node under a top-level key, if the document is a mapping that has it.
pub open spec fn section(doc: Yaml, key: Seq<char>) -> Option<Yaml> {
    match doc {
        Yaml::Mapping(entries) => spec_lookup(entries@, key),
        _ => None,
    }
}

/// The entries of a mapping node; empty on any other node.
pub open spec fn mapping_entries(y: Yaml) -> Seq<(Yaml, Yaml)> {
    match y {
        Yaml::Mapping(entries) => entries@,
        _ => Seq::empty(),
    }
}

/// The server section node is a mapping with every required field.
pub open spec fn server_well_formed(y: Option<Yaml>) -> bool {
    &&& y matches Some(Yaml::Mapping(entries))
    &&& req_str(entries@, "listen"@) is Some
    &&& req_port(entries@, "port"@) is Some
    &&& req_str(entries@, "host"@) is Some
}

/// A wiki or blog node is a mapping with every required field.
pub open spec fn repo_source_well_formed(y: Option<Yaml>) -> bool {
    &&& y matches Some(Yaml::Mapping(entries))
    &&& req_str(entries@, "repository"@) is Some
    &&& req_str(entries@, "path"@) is Some
}

/// The content section node is a mapping whose secret, where present, is a
/// string, and whose wiki and blog subsections are well-formed.
pub open spec fn content_well_formed(y: Option<Yaml>) -> bool {
    &&& y matches Some(Yaml::Mapping(entries))
    &&& opt_str(entries@, "secret"@) is Some
    &&& repo_source_well_formed(spec_lookup(entries@, "wiki"@))
    &&& repo_source_well_formed(spec_lookup(entries@, "blog"@))
}

/// The contact section node is a mapping whose fields, where present, are
/// strings.
pub open spec fn contact_well_formed(y: Option<Yaml>) -> bool {
    &&& y matches Some(Yaml::Mapping(entries))
    &&& opt_str(entries@, "mail"@) is Some
    &&& opt_str(entries@, "matrix"@) is Some
    &&& opt_str(entries@, "threema"@) is Some
}

/// The index section node is a mapping whose fields, where present, are of
/// their expected types.
pub open spec fn index_well_formed(y: Option<Yaml>) -> bool {
    &&& y matches Some(Yaml::Mapping(entries))
    &&& opt_str(entries@, "slogan"@) is Some
    &&& opt_str(entries@, "title"@) is Some
    &&& opt_str_list(entries@, "skills"@) is Some
    &&& opt_str_list(entries@, "links"@) is Some
}

/// Every required field of the document present with its required type, and
/// every optional field, where present, of its required type.
pub open spec fn doc_well_formed(doc: Yaml) -> bool {
    &&& server_well_formed(section(doc, "server"@))
    &&& content_well_formed(section(doc, "content"@))
    &&& contact_well_formed(section(doc, "contact"@))
    &&& index_well_formed(section(doc, "index"@))
}

/// A document loads exactly when it is well-formed: with every required
/// field present and rightly typed the schema yields a configuration, and
/// with any required field missing, or any field mistyped, it yields none —
/// never a default-substituted value.
pub proof fn lemma_load_total(doc: Yaml)
    ensures
        spec_config_of(doc) is Some <==> doc_well_formed(doc),
{
}

/// Loading a well-formed document is faithful: every field of the resulting
/// configuration is exactly the document's value under the corresponding key,
/// required and optional fields alike.
pub proof fn lemma_load_faithful(doc: Yaml)
    requires
        doc_well_formed(doc),
    ensures
        spec_config_of(doc) is Some,
        ({
            let c = spec_config_of(doc).unwrap();
            let se = mapping_entries(section(doc, "server"@).unwrap());
            let ce = mapping_entries(section(doc, "content"@).unwrap());
            let we = mapping_entries(spec_lookup(ce, "wiki"@).unwrap());
            let be = mapping_entries(spec_lookup(ce, "blog"@).unwrap());
            let cte = mapping_entries(section(doc, "contact"@).unwrap());
            let ie = mapping_entries(section(doc, "index"@).unwrap());
            &&& Some(c.server.listen) == req_str(se, "listen"@)
            &&& Some(c.server.port) == req_port(se, "port"@)
            &&& Some(c.server.host) == req_str(se, "host"@)
            &&& Some(c.content.secret) == opt_str(ce, "secret"@)
            &&& Some(c.content.wiki.repository) == req_str(we, "repository"@)
            &&& Some(c.content.wiki.path) == req_str(we, "path"@)
            &&& Some(c.content.blog.repository) == req_str(be, "repository"@)
            &&& Some(c.content.blog.path) == req_str(be, "path"@)
            &&& Some(c.contact.mail) == opt_str(cte, "mail"@)
            &&& Some(c.contact.matrix) == opt_str(cte, "matrix"@)
            &&& Some(c.contact.threema) == opt_str(cte, "threema"@)
            &&& Some(c.index.slogan) == opt_str(ie, "slogan"@)
            &&& Some(c.index.title) == opt_str(ie, "title"@)
            &&& Some(c.index.skills) == opt_str_list(ie, "skills"@)
            &&& Some(c.index.links) == opt_str_list(ie, "links"@)
        }),
{
}

/// A document whose server section lacks the `port` entry never loads.
pub proof fn lemma_missing_port_rejected(doc: Yaml)
    requires
        section(doc, "server"@) matches Some(Yaml::Mapping(entries)) && spec_lookup(
            entries@,
            "port"@,
        ) is None,
    ensures
        spec_config_of(doc) is None,
{
}

/// When the document gave no secret, the fallback decides: a present
/// environment value becomes the secret, an absent one leaves it absent, and
/// either way the step yields a configuration — it cannot fail — with every
/// other part untouched.
pub proof fn lemma_fallback_resolves_secret(c: ConfigView, fallback: Option<Seq<char>>)
    requires
        c.content.secret is None,
    ensures
        spec_with_fallback(c, fallback).content.secret == fallback,
        spec_with_fallback(c, fallback).server == c.server,
        spec_with_fallback(c, fallback).content.wiki == c.content.wiki,
        spec_with_fallback(c, fallback).content.blog == c.content.blog,
        spec_with_fallback(c, fallback).contact == c.contact,
        spec_with_fallback(c, fallback).index == c.index,
{
}

/// A secret given in the document always stands: whatever the environment
/// holds — and whether or not it is read at all — the fallback step returns
/// the configuration unchanged.
pub proof fn lemma_document_secret_stands(
    c: ConfigView,
    e1: Option<Seq<char>>,
    e2: Option<Seq<char>>,
)
    requires
        c.content.secret is Some,
    ensures
        spec_with_fallback(c, e1) == c,
        spec_with_fallback(c, e1) == spec_with_fallback(c, e2),
{
}

} // verus!
