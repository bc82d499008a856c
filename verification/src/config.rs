//! Configuration resolution: the structured configuration file's values and
//! the precedence-ordered merge of command line, file, and defaults.

use vstd::prelude::*;

use crate::cli::Cli;
use crate::logging::LogLevel;
use crate::logging::level::spec_parse_level;

verus! {

/// The shape of one configuration key as the document holds it: absent, an
/// integer, text, or present with some other shape.
pub enum ConfigValueShape {
    /// The key does not appear.
    Missing,
    /// The key's first argument is an integer.
    Integer(i128),
    /// The key's first argument is text.
    Text(String),
    /// The key appears, but its first argument is missing or has another
    /// shape.
    Invalid,
}

/// What the document holds for each known configuration key, before
/// validation.
pub struct RawConfigValues {
    /// The top-level log level key.
    pub log_level: ConfigValueShape,
    /// The platform API identifier, inside the platform block.
    pub api_id: ConfigValueShape,
    /// The platform API secret, inside the platform block.
    pub api_hash: ConfigValueShape,
    /// The account phone number, inside the platform block.
    pub phone_number: ConfigValueShape,
    /// The session file path, inside the platform block.
    pub session_filename: ConfigValueShape,
}

#[verifier::external_type_specification]
#[verifier::external_body]
pub struct ExKdlDocument(kdl::KdlDocument);

/// Whether the text is a well-formed structured document; determined by the
/// text alone.
pub uninterp spec fn spec_kdl_parses(s: Seq<char>) -> bool;

/// The shape of the named key's first argument at the top level of the
/// document the text parses to; determined by the text alone.
pub uninterp spec fn spec_top_arg_shape(s: Seq<char>, key: Seq<char>) -> ConfigValueShape;

/// The shape of the named key's first argument inside the children of the
/// text's first top-level node with the given name; `Missing` where there is
/// no such node or it has no children. Determined by the text alone.
pub uninterp spec fn spec_child_arg_shape(
    s: Seq<char>,
    node: Seq<char>,
    key: Seq<char>,
) -> ConfigValueShape;

/// The shape of the named key's first argument in a parsed document block;
/// a function of the block's value.
pub uninterp spec fn spec_doc_arg_shape(doc: kdl::KdlDocument, key: Seq<char>) -> ConfigValueShape;

/// The shape of the named key's first argument inside the children of the
/// block's first node with the given name; `Missing` where there is no such
/// node or it has no children. A function of the block's value.
pub uninterp spec fn spec_doc_child_arg_shape(
    doc: kdl::KdlDocument,
    node: Seq<char>,
    key: Seq<char>,
) -> ConfigValueShape;

/// Relies on str::parse::<kdl::KdlDocument> (the document parser): the
/// structured form of the text, or nothing when the text is malformed. The
/// whole parse is a function of the text, so the returned document's key
/// shapes are identified with the text's.
#[verifier::external_body]
fn parse_document(text: &str) -> (r: Option<kdl::KdlDocument>)
    ensures
        r is Some <==> spec_kdl_parses(text@),
        r matches Some(doc) ==> forall|key: Seq<char>|
            #[trigger] spec_doc_arg_shape(doc, key) == spec_top_arg_shape(text@, key),
        r matches Some(doc) ==> forall|node: Seq<char>, key: Seq<char>|
            #[trigger] spec_doc_child_arg_shape(doc, node, key) == spec_child_arg_shape(
                text@,
                node,
                key,
            ),
{
    match text.parse::<kdl::KdlDocument>() {
        Ok(doc) => Some(doc),
        Err(_) => None,
    }
}

/// Relies on kdl::KdlDocument::get_arg, kdl::KdlValue::as_integer and
/// kdl::KdlValue::as_string: the shape of the named key's first argument in
/// a block. The three calls stand in one body so that the intermediate value
/// type need not cross the boundary; each arm only moves the value out.
#[verifier::external_body]
fn shape_of_arg(block: &kdl::KdlDocument, name: &str) -> (r: ConfigValueShape)
    ensures
        r == spec_doc_arg_shape(*block, name@),
{
    match block.get_arg(name) {
        None => ConfigValueShape::Missing,
        Some(value) => match value.as_integer() {
            Some(n) => ConfigValueShape::Integer(n),
            None => match value.as_string() {
                Some(s) => ConfigValueShape::Text(s.to_string()),
                None => ConfigValueShape::Invalid,
            },
        },
    }
}

/// Relies on kdl::KdlDocument::get and kdl::KdlNode::children: the children
/// block of the first node with the given name. The two calls stand in one
/// body so that the node type need not cross the boundary; keys of a child
/// block that does not exist count as missing.
#[verifier::external_body]
fn child_block<'a>(doc: &'a kdl::KdlDocument, name: &str) -> (r: Option<&'a kdl::KdlDocument>)
    ensures
        r matches Some(b) ==> forall|key: Seq<char>|
            #[trigger] spec_doc_arg_shape(*b, key) == spec_doc_child_arg_shape(
                *doc,
                name@,
                key,
            ),
        r is None ==> forall|key: Seq<char>|
            #[trigger] spec_doc_child_arg_shape(*doc, name@, key) == ConfigValueShape::Missing,
{
    match doc.get(name) {
        Some(node) => node.children(),
        None => None,
    }
}

/// What a parsed document holds for each known key.
pub open spec fn spec_doc_raw(doc: kdl::KdlDocument) -> RawConfigValues {
    RawConfigValues {
        log_level: spec_doc_arg_shape(doc, "log_level"@),
        api_id: spec_doc_child_arg_shape(doc, "telegram"@, "api_id"@),
        api_hash: spec_doc_child_arg_shape(doc, "telegram"@, "api_hash"@),
        phone_number: spec_doc_child_arg_shape(doc, "telegram"@, "phone_number"@),
        session_filename: spec_doc_child_arg_shape(doc, "telegram"@, "session_filename"@),
    }
}

/// What the text's document holds for each known key.
pub open spec fn spec_config_raw(s: Seq<char>) -> RawConfigValues {
    RawConfigValues {
        log_level: spec_top_arg_shape(s, "log_level"@),
        api_id: spec_child_arg_shape(s, "telegram"@, "api_id"@),
        api_hash: spec_child_arg_shape(s, "telegram"@, "api_hash"@),
        phone_number: spec_child_arg_shape(s, "telegram"@, "phone_number"@),
        session_filename: spec_child_arg_shape(s, "telegram"@, "session_filename"@),
    }
}

/// Reads the shapes of every known key out of a parsed document: the log
/// level at the top level, the rest inside the platform block.
fn extract_raw(doc: &kdl::KdlDocument) -> (r: RawConfigValues)
    ensures
        r == spec_doc_raw(*doc),
{
    let log_level = shape_of_arg(doc, "log_level");
    match child_block(doc, "telegram") {
        Some(children) => RawConfigValues {
            log_level,
            api_id: shape_of_arg(children, "api_id"),
            api_hash: shape_of_arg(children, "api_hash"),
            phone_number: shape_of_arg(children, "phone_number"),
            session_filename: shape_of_arg(children, "session_filename"),
        },
        None => RawConfigValues {
            log_level,
            api_id: ConfigValueShape::Missing,
            api_hash: ConfigValueShape::Missing,
            phone_number: ConfigValueShape::Missing,
            session_filename: ConfigValueShape::Missing,
        },
    }
}

/// The optional values a configuration file contributes, after validation.
pub struct ConfigFile {
    /// The file's log level, if given.
    pub log_level: Option<LogLevel>,
    /// The file's platform API identifier, if given.
    pub api_id: Option<i32>,
    /// The file's platform API secret, if given.
    pub api_hash: Option<String>,
    /// The file's account phone number, if given.
    pub phone_number: Option<String>,
    /// The file's session file path, if given.
    pub session_filename: Option<String>,
}

impl Default for ConfigFile {
    /// A configuration file that contributes nothing.
    fn default() -> (r: Self)
        ensures
            r.log_level is None,
            r.api_id is None,
            r.api_hash is None,
            r.phone_number is None,
            r.session_filename is None,
    {
        ConfigFile {
            log_level: None,
            api_id: None,
            api_hash: None,
            phone_number: None,
            session_filename: None,
        }
    }
}

/// How reading a configuration file can fail.
#[derive(Debug)]
pub enum ConfigFileError {
    /// The text is not a well-formed structured document.
    Parse,
    /// A known key is present but its value has the wrong shape.
    InvalidValue,
}

impl ConfigFileError {
    /// A human-readable description of the failure.
    pub fn message(&self) -> (r: String)
        ensures
            r@.len() > 0,
    {
        match self {
            ConfigFileError::Parse => {
                proof {
                    reveal_strlit("Failed to parse config file");
                }
                String::from_str("Failed to parse config file")
            },
            ConfigFileError::InvalidValue => {
                proof {
                    reveal_strlit("Invalid value in config file");
                }
                String::from_str("Invalid value in config file")
            },
        }
    }
}

/// Whether the log level key's shape is acceptable: absent, any integer
/// (clamped later), or text that names a level.
pub open spec fn spec_level_shape_ok(v: ConfigValueShape) -> bool {
    match v {
        ConfigValueShape::Missing => true,
        ConfigValueShape::Integer(_) => true,
        ConfigValueShape::Text(t) => spec_parse_level(t@) is Some,
        ConfigValueShape::Invalid => false,
    }
}

/// Whether the API identifier key's shape is acceptable: absent, or an
/// integer that fits a 32-bit signed value.
pub open spec fn spec_api_id_shape_ok(v: ConfigValueShape) -> bool {
    match v {
        ConfigValueShape::Missing => true,
        ConfigValueShape::Integer(n) => -0x8000_0000 <= n <= 0x7fff_ffff,
        ConfigValueShape::Text(_) => false,
        ConfigValueShape::Invalid => false,
    }
}

/// Whether a text-valued key's shape is acceptable: absent or text.
pub open spec fn spec_text_shape_ok(v: ConfigValueShape) -> bool {
    match v {
        ConfigValueShape::Missing => true,
        ConfigValueShape::Integer(_) => false,
        ConfigValueShape::Text(_) => true,
        ConfigValueShape::Invalid => false,
    }
}

/// Whether every key the document holds has an acceptable shape.
pub open spec fn spec_raw_ok(raw: RawConfigValues) -> bool {
    &&& spec_level_shape_ok(raw.log_level)
    &&& spec_api_id_shape_ok(raw.api_id)
    &&& spec_text_shape_ok(raw.api_hash)
    &&& spec_text_shape_ok(raw.phone_number)
    &&& spec_text_shape_ok(raw.session_filename)
}

/// What validation makes of acceptable key shapes: each contribution is
/// pinned to its shape.
pub open spec fn spec_validated(raw: RawConfigValues, cf: ConfigFile) -> bool {
    &&& match raw.log_level {
        ConfigValueShape::Missing => cf.log_level is None,
        ConfigValueShape::Integer(n) => cf.log_level == Some(LogLevel::spec_from_int(n as int)),
        ConfigValueShape::Text(t) => cf.log_level == spec_parse_level(t@),
        ConfigValueShape::Invalid => false,
    }
    &&& match raw.api_id {
        ConfigValueShape::Missing => cf.api_id is None,
        ConfigValueShape::Integer(n) => cf.api_id == Some(n as i32),
        _ => false,
    }
    &&& match raw.api_hash {
        ConfigValueShape::Missing => cf.api_hash is None,
        ConfigValueShape::Text(t) => cf.api_hash matches Some(h) && h@ == t@,
        _ => false,
    }
    &&& match raw.phone_number {
        ConfigValueShape::Missing => cf.phone_number is None,
        ConfigValueShape::Text(t) => cf.phone_number matches Some(p) && p@ == t@,
        _ => false,
    }
    &&& match raw.session_filename {
        ConfigValueShape::Missing => cf.session_filename is None,
        ConfigValueShape::Text(t) => cf.session_filename matches Some(s) && s@ == t@,
        _ => false,
    }
}

impl ConfigFile {
    /// Validates the raw key shapes into the file's contribution: a key that
    /// is present but malformed fails the whole file rather than being
    /// skipped.
    pub fn from_raw(raw: RawConfigValues) -> (r: Result<ConfigFile, ConfigFileError>)
        ensures
            r is Ok <==> spec_raw_ok(raw),
            !spec_raw_ok(raw) ==> r == Err::<ConfigFile, ConfigFileError>(
                ConfigFileError::InvalidValue,
            ),
            r matches Ok(cf) ==> spec_validated(raw, cf),
    {
        let log_level: Option<LogLevel> = match raw.log_level {
            ConfigValueShape::Missing => None,
            ConfigValueShape::Integer(n) => Some(LogLevel::from_int(n)),
            ConfigValueShape::Text(t) => match LogLevel::parse_str(t.as_str()) {
                Ok(level) => Some(level),
                Err(_) => {
                    return Err(ConfigFileError::InvalidValue);
                },
            },
            ConfigValueShape::Invalid => {
                return Err(ConfigFileError::InvalidValue);
            },
        };
        let api_id: Option<i32> = match raw.api_id {
            ConfigValueShape::Missing => None,
            ConfigValueShape::Integer(n) => {
                if -0x8000_0000i128 <= n && n <= 0x7fff_ffffi128 {
                    Some(n as i32)
                } else {
                    return Err(ConfigFileError::InvalidValue);
                }
            },
            _ => {
                return Err(ConfigFileError::InvalidValue);
            },
        };
        let api_hash: Option<String> = match raw.api_hash {
            ConfigValueShape::Missing => None,
            ConfigValueShape::Text(t) => Some(t),
            _ => {
                return Err(ConfigFileError::InvalidValue);
            },
        };
        let phone_number: Option<String> = match raw.phone_number {
            ConfigValueShape::Missing => None,
            ConfigValueShape::Text(t) => Some(t),
            _ => {
                return Err(ConfigFileError::InvalidValue);
            },
        };
        let session_filename: Option<String> = match raw.session_filename {
            ConfigValueShape::Missing => None,
            ConfigValueShape::Text(t) => Some(t),
            _ => {
                return Err(ConfigFileError::InvalidValue);
            },
        };
        Ok(ConfigFile { log_level, api_id, api_hash, phone_number, session_filename })
    }

    /// Parses a configuration document's text and validates the known keys:
    /// a malformed document is a parse error, a present-but-malformed key
    /// fails the whole file, and otherwise each key's contribution is pinned
    /// to what the text holds.
    pub fn parse(text: &str) -> (r: Result<ConfigFile, ConfigFileError>)
        ensures
            r matches Err(ConfigFileError::Parse) <==> !spec_kdl_parses(text@),
            spec_kdl_parses(text@) ==> match r {
                Ok(cf) => spec_raw_ok(spec_config_raw(text@)) && spec_validated(
                    spec_config_raw(text@),
                    cf,
                ),
                Err(e) => e is InvalidValue && !spec_raw_ok(spec_config_raw(text@)),
            },
    {
        match parse_document(text) {
            Some(doc) => {
                let raw = extract_raw(&doc);
                proof {
                    assert(raw == spec_config_raw(text@));
                }
                ConfigFile::from_raw(raw)
            },
            None => Err(ConfigFileError::Parse),
        }
    }
}

/// How configuration resolution can fail: a required field set nowhere or
/// set empty, or no place to put the default session file.
#[derive(Debug)]
pub enum ConfigError {
    /// No session path was given and no state directory could be found.
    StateDirUnavailable,
    /// The platform API identifier was set nowhere.
    MissingApiId,
    /// The platform API secret was set nowhere, or set to an empty string.
    MissingApiHash,
    /// The account phone number was set nowhere, or set to an empty string.
    MissingPhoneNumber,
}

impl ConfigError {
    /// A human-readable description naming what is missing.
    pub fn message(&self) -> (r: String)
        ensures
            r@.len() > 0,
            *self is MissingApiId ==> r@ == "API ID not provided"@,
            *self is MissingApiHash ==> r@ == "API hash not provided"@,
            *self is MissingPhoneNumber ==> r@ == "Phone number not provided"@,
    {
        match self {
            ConfigError::StateDirUnavailable => {
                proof {
                    reveal_strlit("Could not determine a state directory");
                }
                String::from_str("Could not determine a state directory")
            },
            ConfigError::MissingApiId => {
                proof {
                    reveal_strlit("API ID not provided");
                }
                String::from_str("API ID not provided")
            },
            ConfigError::MissingApiHash => {
                proof {
                    reveal_strlit("API hash not provided");
                }
                String::from_str("API hash not provided")
            },
            ConfigError::MissingPhoneNumber => {
                proof {
                    reveal_strlit("Phone number not provided");
                }
                String::from_str("Phone number not provided")
            },
        }
    }
}

/// The final merged configuration, immutable once resolved. The identifier
/// is present and the secret and phone number are non-empty, or resolution
/// failed.
#[derive(Debug)]
pub struct Config {
    log_level: Option<LogLevel>,
    api_id: i32,
    api_hash: String,
    phone_number: String,
    session_filename: String,
}

/// Whether a merged text value is usable: present and non-empty.
pub open spec fn spec_usable_text(v: Option<Seq<char>>) -> bool {
    v matches Some(s) && s.len() > 0
}

/// The log level after merging: the command line wins, then the file; absent
/// means the compiled default is to be used.
pub open spec fn spec_merged_log_level(cli: Cli, file: Option<ConfigFile>) -> Option<LogLevel> {
    if cli.spec_log_level() is Some {
        cli.spec_log_level()
    } else {
        match file {
            Some(f) => f.log_level,
            None => None,
        }
    }
}

/// The API identifier after merging: the command line wins, then the file.
pub open spec fn spec_merged_api_id(cli: Cli, file: Option<ConfigFile>) -> Option<i32> {
    if cli.api_id is Some {
        cli.api_id
    } else {
        match file {
            Some(f) => f.api_id,
            None => None,
        }
    }
}

/// The API secret after merging, as its text: the command line wins, then
/// the file.
pub open spec fn spec_merged_api_hash(cli: Cli, file: Option<ConfigFile>) -> Option<Seq<char>> {
    match cli.api_hash {
        Some(h) => Some(h@),
        None => match file {
            Some(f) => match f.api_hash {
                Some(h) => Some(h@),
                None => None,
            },
            None => None,
        },
    }
}

/// The phone number after merging, as its text: the command line wins, then
/// the file.
pub open spec fn spec_merged_phone_number(cli: Cli, file: Option<ConfigFile>) -> Option<
    Seq<char>,
> {
    match cli.phone_number {
        Some(p) => Some(p@),
        None => match file {
            Some(f) => match f.phone_number {
                Some(p) => Some(p@),
                None => None,
            },
            None => None,
        },
    }
}

/// The session path after merging, as its text: the command line wins, then
/// the file; absent means the default under the state directory is used.
pub open spec fn spec_merged_session(cli: Cli, file: Option<ConfigFile>) -> Option<Seq<char>> {
    match cli.session {
        Some(s) => Some(s@),
        None => match file {
            Some(f) => match f.session_filename {
                Some(s) => Some(s@),
                None => None,
            },
            None => None,
        },
    }
}

impl Config {
    /// The merged log level, if one was set anywhere.
    pub closed spec fn spec_log_level(self) -> Option<LogLevel> {
        self.log_level
    }

    /// The merged platform API identifier.
    pub closed spec fn spec_api_id(self) -> i32 {
        self.api_id
    }

    /// The merged platform API secret's text.
    pub closed spec fn spec_api_hash(self) -> Seq<char> {
        self.api_hash@
    }

    /// The merged account phone number's text.
    pub closed spec fn spec_phone_number(self) -> Seq<char> {
        self.phone_number@
    }

    /// The merged session path's text.
    pub closed spec fn spec_session_filename(self) -> Seq<char> {
        self.session_filename@
    }

    /// Merges the command line, the configuration file's contribution, and
    /// the defaults into the final configuration. Per field the command line
    /// wins over the file; the identifier must be set and the secret and
    /// phone number must merge to non-empty text, or resolution fails naming
    /// the field; a missing session path falls back to a fixed name under
    /// the given state directory.
    pub fn from_cli(cli: &Cli, config_file: Option<ConfigFile>, state_dir: Option<String>) -> (r:
        Result<Config, ConfigError>)
        ensures
            ({
                let merged_session = spec_merged_session(*cli, config_file);
                let merged_id = spec_merged_api_id(*cli, config_file);
                let merged_hash = spec_merged_api_hash(*cli, config_file);
                let merged_phone = spec_merged_phone_number(*cli, config_file);
                match r {
                    Ok(c) => {
                        &&& merged_session is None ==> state_dir is Some
                        &&& merged_id is Some
                        &&& spec_usable_text(merged_hash)
                        &&& spec_usable_text(merged_phone)
                        &&& c.spec_log_level() == spec_merged_log_level(*cli, config_file)
                        &&& c.spec_api_id() == merged_id->0
                        &&& c.spec_api_hash() == merged_hash->0
                        &&& c.spec_phone_number() == merged_phone->0
                        &&& c.spec_session_filename() == match merged_session {
                            Some(s) => s,
                            None => state_dir->0@ + "/"@ + "session"@,
                        }
                    },
                    Err(e) => match e {
                        ConfigError::StateDirUnavailable => merged_session is None
                            && state_dir is None,
                        ConfigError::MissingApiId => (merged_session is Some
                            || state_dir is Some) && merged_id is None,
                        ConfigError::MissingApiHash => (merged_session is Some
                            || state_dir is Some) && merged_id is Some && !spec_usable_text(
                            merged_hash,
                        ),
                        ConfigError::MissingPhoneNumber => (merged_session is Some
                            || state_dir is Some) && merged_id is Some && spec_usable_text(
                            merged_hash,
                        ) && !spec_usable_text(merged_phone),
                    },
                }
            }),
    {
        let mut log_level: Option<LogLevel> = None;
        let mut api_id: Option<i32> = None;
        let mut api_hash: Option<String> = None;
        let mut phone_number: Option<String> = None;
        let mut session_filename: Option<String> = None;
        match config_file {
            Some(f) => {
                log_level = f.log_level;
                api_id = f.api_id;
                api_hash = f.api_hash;
                phone_number = f.phone_number;
                session_filename = f.session_filename;
            },
            None => {},
        }
        if let Some(cli_log_level) = cli.log_level() {
            log_level = Some(cli_log_level);
        }
        if let Some(cli_api_id) = cli.api_id {
            api_id = Some(cli_api_id);
        }
        if let Some(cli_api_hash) = &cli.api_hash {
            api_hash = Some(cli_api_hash.clone());
        }
        if let Some(cli_phone_number) = &cli.phone_number {
            phone_number = Some(cli_phone_number.clone());
        }
        if let Some(cli_session) = &cli.session {
            session_filename = Some(cli_session.clone());
        }
        let session_filename: String = match session_filename {
            Some(s) => s,
            None => match state_dir {
                Some(dir) => crate::dirs::join_path(dir.as_str(), "session"),
                None => {
                    return Err(ConfigError::StateDirUnavailable);
                },
            },
        };
        let api_id: i32 = match api_id {
            Some(v) => v,
            None => {
                return Err(ConfigError::MissingApiId);
            },
        };
        // An empty secret or phone number could not have come from a real
        // credential: treat it as missing.
        let api_hash: String = match api_hash {
            Some(v) => {
                if v.as_str().is_empty() {
                    return Err(ConfigError::MissingApiHash);
                }
                v
            },
            None => {
                return Err(ConfigError::MissingApiHash);
            },
        };
        let phone_number: String = match phone_number {
            Some(v) => {
                if v.as_str().is_empty() {
                    return Err(ConfigError::MissingPhoneNumber);
                }
                v
            },
            None => {
                return Err(ConfigError::MissingPhoneNumber);
            },
        };
        Ok(Config { log_level, api_id, api_hash, phone_number, session_filename })
    }

    /// The merged log level, if one was set anywhere.
    pub fn log_level(&self) -> (r: Option<LogLevel>)
        ensures
            r == self.spec_log_level(),
    {
        self.log_level
    }

    /// The merged platform API identifier.
    pub fn api_id(&self) -> (r: i32)
        ensures
            r == self.spec_api_id(),
    {
        self.api_id
    }

    /// The merged platform API secret.
    pub fn api_hash(&self) -> (r: &str)
        ensures
            r@ == self.spec_api_hash(),
    {
        self.api_hash.as_str()
    }

    /// The merged account phone number.
    pub fn phone_number(&self) -> (r: &str)
        ensures
            r@ == self.spec_phone_number(),
    {
        self.phone_number.as_str()
    }

    /// The merged session file path.
    pub fn session_filename(&self) -> (r: &str)
        ensures
            r@ == self.spec_session_filename(),
    {
        self.session_filename.as_str()
    }
}

} // verus!
