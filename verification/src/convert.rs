//! The supported formats and their translation to Nix.
//!
//! Each format is read by its own outside reader into a document value,
//! which `ser_nix` writes out as Nix text. Both steps are functions of the
//! input text alone, so the outcome of a format is named below as a function
//! of the input: the Nix text, or the error that the reader gives.
use vstd::prelude::*;
use crate::text::{lower_eq, strip_prefix_or_keep, strip_prefix_or_whole};
use vstd::string::StringExecFns;

verus! {

/// The outcome of reading an INI document with `serde_ini` into a
/// `serde_json::Value` and writing that with `ser_nix`: the Nix text, or the
/// reader's error (its variants told apart as `IniError` does).
pub uninterp spec fn ini_outcome(input: Seq<char>) -> Result<Seq<char>, IniError>;

/// The outcome of reading a JSON document with `serde_json` into a
/// `serde_json::Value` and writing that with `ser_nix`: the Nix text, or the
/// `Display` text of the reader's error.
pub uninterp spec fn json_outcome(input: Seq<char>) -> Result<Seq<char>, Seq<char>>;

/// The outcome of reading a TOML document with `toml` into a `toml::Value`
/// and writing that with `ser_nix`: the Nix text, or the `message` of the
/// reader's error.
pub uninterp spec fn toml_outcome(input: Seq<char>) -> Result<Seq<char>, Seq<char>>;

/// The outcome of reading a YAML document with `yaml_serde` into a
/// `yaml_serde::Value` and writing that with `ser_nix`: the Nix text, or the
/// `Display` text of the reader's error.
pub uninterp spec fn yaml_outcome(input: Seq<char>) -> Result<Seq<char>, Seq<char>>;

/// How `IniError` tells apart the variants of a `serde_ini::de::Error`.
pub uninterp spec fn ini_error_kind(e: serde_ini::de::Error) -> IniError;

/// The `Display` text of a `serde_json::Error`.
pub uninterp spec fn json_error_display(e: serde_json::Error) -> Seq<char>;

/// What `toml::de::Error::message` gives: the error's text without its location.
pub uninterp spec fn toml_error_message(e: toml::de::Error) -> Seq<char>;

/// The `Display` text of a `yaml_serde::Error`.
pub uninterp spec fn yaml_error_display(e: yaml_serde::Error) -> Seq<char>;

/// Reads `input` with `serde_ini::from_str` into a `serde_json::Value` and
/// writes that with `ser_nix::to_string`. Claimed: the Nix text is that of
/// `ini_outcome`, and an error is given exactly where `ini_outcome` holds
/// one, the one that `ini_error_kind` tells apart. `ser_nix::to_string` fails
/// only where a `Serialize` impl reports a custom error, which that of
/// `serde_json::Value` never does.
#[verifier::external_body]
fn translate_ini(input: &str) -> (res: Result<String, serde_ini::de::Error>)
    ensures
        match res {
            Ok(nix) => ini_outcome(input@) == Ok::<Seq<char>, IniError>(nix@),
            Err(e) => ini_outcome(input@) == Err::<Seq<char>, IniError>(ini_error_kind(e)),
        },
{
    let value = serde_ini::from_str::<serde_json::Value>(input)?;
    Ok(ser_nix::to_string(&value).expect("AST to Nix is infallible"))
}

/// Reads `input` with `serde_json::from_str` into a `serde_json::Value` and
/// writes that with `ser_nix::to_string`. Claimed: the outcome is
/// `json_outcome` of the input, the error by its `Display` text.
/// `ser_nix::to_string` never fails on a `serde_json::Value`.
#[verifier::external_body]
fn translate_json(input: &str) -> (res: Result<String, serde_json::Error>)
    ensures
        match res {
            Ok(nix) => json_outcome(input@) == Ok::<Seq<char>, Seq<char>>(nix@),
            Err(e) => json_outcome(input@) == Err::<Seq<char>, Seq<char>>(json_error_display(e)),
        },
{
    let value = serde_json::from_str::<serde_json::Value>(input)?;
    Ok(ser_nix::to_string(&value).expect("AST to Nix is infallible"))
}

/// Reads `input` with `toml::from_str` into a `toml::Value` and writes that
/// with `ser_nix::to_string`. Claimed: the outcome is `toml_outcome` of the
/// input, the error by its `message`. `ser_nix::to_string` never fails on a
/// `toml::Value`.
#[verifier::external_body]
fn translate_toml(input: &str) -> (res: Result<String, toml::de::Error>)
    ensures
        match res {
            Ok(nix) => toml_outcome(input@) == Ok::<Seq<char>, Seq<char>>(nix@),
            Err(e) => toml_outcome(input@) == Err::<Seq<char>, Seq<char>>(toml_error_message(e)),
        },
{
    let value = toml::from_str::<toml::Value>(input)?;
    Ok(ser_nix::to_string(&value).expect("AST to Nix is infallible"))
}

/// Reads `input` with `yaml_serde::from_str` into a `yaml_serde::Value` and
/// writes that with `ser_nix::to_string`. Claimed: the outcome is
/// `yaml_outcome` of the input, the error by its `Display` text.
/// `ser_nix::to_string` never fails on a `yaml_serde::Value`.
#[verifier::external_body]
fn translate_yaml(input: &str) -> (res: Result<String, yaml_serde::Error>)
    ensures
        match res {
            Ok(nix) => yaml_outcome(input@) == Ok::<Seq<char>, Seq<char>>(nix@),
            Err(e) => yaml_outcome(input@) == Err::<Seq<char>, Seq<char>>(yaml_error_display(e)),
        },
{
    let value = yaml_serde::from_str::<yaml_serde::Value>(input)?;
    Ok(ser_nix::to_string(&value).expect("AST to Nix is infallible"))
}

/// Tells the variants of `serde_ini::de::Error` apart, moving the message of
/// `Custom`. Claimed: the result is `ini_error_kind` of the error.
#[verifier::external_body]
fn ini_error_of(e: serde_ini::de::Error) -> (r: IniError)
    ensures
        r == ini_error_kind(e),
{
    match e {
        serde_ini::de::Error::Custom(message) => IniError::Custom(message),
        serde_ini::de::Error::UnexpectedEof => IniError::UnexpectedEof,
        serde_ini::de::Error::InvalidState => IniError::InvalidState,
    }
}

/// The `Display` text of a `serde_json::Error`. Claimed: it is
/// `json_error_display` of the error.
#[verifier::external_body]
fn json_error_text(e: &serde_json::Error) -> (r: String)
    ensures
        r@ == json_error_display(*e),
{
    e.to_string()
}

/// `toml::de::Error::message`, the error's text without its location.
/// Claimed: it is `toml_error_message` of the error.
#[verifier::external_body]
fn toml_error_text(e: &toml::de::Error) -> (r: String)
    ensures
        r@ == toml_error_message(*e),
{
    e.message().to_string()
}

/// The `Display` text of a `yaml_serde::Error`. Claimed: it is
/// `yaml_error_display` of the error.
#[verifier::external_body]
fn yaml_error_text(e: &yaml_serde::Error) -> (r: String)
    ensures
        r@ == yaml_error_display(*e),
{
    e.to_string()
}

/// The formats that can be translated to Nix.
#[derive(Clone, Copy, Debug, PartialEq, Eq, Structural)]
pub enum Format {
    Ini,
    Json,
    Toml,
    Yaml,
}

/// An error of the INI reader.
#[derive(Debug, PartialEq, Eq)]
pub enum IniError {
    /// A syntax or conversion error, with its message.
    Custom(String),
    /// The text ended where more was expected.
    UnexpectedEof,
    /// The reader was used in an order it does not support.
    InvalidState,
}

/// Why a text could not be translated: the error of the format's reader.
#[derive(Debug)]
pub enum ConvertError {
    Ini(IniError),
    Json(serde_json::Error),
    Toml(toml::de::Error),
    Yaml(yaml_serde::Error),
}

/// The outcome of translating `input` read as `format`: the Nix text, or
/// the message of the reader's error.
pub open spec fn outcome_of(format: Format, input: Seq<char>) -> Result<Seq<char>, Seq<char>> {
    match format {
        Format::Ini => match ini_outcome(input) {
            Ok(nix) => Ok(nix),
            Err(e) => Err(e.text()),
        },
        Format::Json => json_outcome(input),
        Format::Toml => toml_outcome(input),
        Format::Yaml => yaml_outcome(input),
    }
}

/// `res` is the translation of `input` read as `format`: its Nix text where
/// the reader accepts it, else that format's reader's error, with its message
/// (and, for INI, the error itself).
pub open spec fn translated(res: Result<String, ConvertError>, format: Format, input: Seq<char>) -> bool {
    match res {
        Ok(nix) => outcome_of(format, input) == Ok::<Seq<char>, Seq<char>>(nix@),
        Err(e) => {
            &&& e.source_format() == format
            &&& outcome_of(format, input) == Err::<Seq<char>, Seq<char>>(e.message())
            &&& e matches ConvertError::Ini(k) ==> ini_outcome(input) == Err::<Seq<char>, IniError>(k)
        },
    }
}

/// Two results of translation agree: the same Nix text, or errors of the
/// same format with the same message (for INI, the same error).
pub open spec fn same_translation(a: Result<String, ConvertError>, b: Result<String, ConvertError>) -> bool {
    match (a, b) {
        (Ok(x), Ok(y)) => x@ == y@,
        (Err(x), Err(y)) => {
            &&& x.source_format() == y.source_format()
            &&& x.message() == y.message()
            &&& x matches ConvertError::Ini(k) ==> y == ConvertError::Ini(k)
        },
        _ => false,
    }
}

/// A translation is determined by the format and the input: `Format::to_nix`
/// and the format's own function (`ini_to_nix`, ...) give the same outcome.
pub proof fn law_translation_is_determined(
    a: Result<String, ConvertError>,
    b: Result<String, ConvertError>,
    format: Format,
    input: Seq<char>,
)
    requires
        translated(a, format, input),
        translated(b, format, input),
    ensures
        same_translation(a, b),
{
}

/// Every translation reads the whole input with its format's reader: the
/// result is the reader's own outcome on the input, untransformed, with the
/// reader's error carried in the error of that format.
pub proof fn law_translation_reads_whole_input(
    res: Result<String, ConvertError>,
    format: Format,
    input: Seq<char>,
)
    requires
        translated(res, format, input),
    ensures
        format == Format::Ini ==> match res {
            Ok(nix) => ini_outcome(input) == Ok::<Seq<char>, IniError>(nix@),
            Err(e) => e matches ConvertError::Ini(k) && ini_outcome(input) == Err::<
                Seq<char>,
                IniError,
            >(k),
        },
        format == Format::Json ==> match res {
            Ok(nix) => json_outcome(input) == Ok::<Seq<char>, Seq<char>>(nix@),
            Err(e) => e matches ConvertError::Json(j) && json_outcome(input) == Err::<
                Seq<char>,
                Seq<char>,
            >(json_error_display(j)),
        },
        format == Format::Toml ==> match res {
            Ok(nix) => toml_outcome(input) == Ok::<Seq<char>, Seq<char>>(nix@),
            Err(e) => e matches ConvertError::Toml(t) && toml_outcome(input) == Err::<
                Seq<char>,
                Seq<char>,
            >(toml_error_message(t)),
        },
        format == Format::Yaml ==> match res {
            Ok(nix) => yaml_outcome(input) == Ok::<Seq<char>, Seq<char>>(nix@),
            Err(e) => e matches ConvertError::Yaml(y) && yaml_outcome(input) == Err::<
                Seq<char>,
                Seq<char>,
            >(yaml_error_display(y)),
        },
{
    if format == Format::Ini {
        if let Ok(nix) = res {
            if ini_outcome(input) is Err {
                assert(outcome_of(format, input) is Err);
            }
        }
    }
}

/// The message of an INI syntax error is the reader's message without its
/// `INI syntax error: ` prefix; a message without that prefix is kept whole.
pub proof fn law_ini_message_drops_syntax_prefix(e: IniError, rest: Seq<char>)
    ensures
        match e {
            IniError::Custom(m) => {
                &&& m@ == "INI syntax error: "@ + rest ==> e.text() == rest
                &&& !"INI syntax error: "@.is_prefix_of(m@) ==> e.text() == m@
            },
            _ => true,
        },
{
    if let IniError::Custom(m) = e {
        if m@ == "INI syntax error: "@ + rest {
            assert("INI syntax error: "@.is_prefix_of(m@)) by {
                assert(m@.subrange(0, "INI syntax error: "@.len() as int) =~= "INI syntax error: "@);
            }
            assert(m@.skip("INI syntax error: "@.len() as int) =~= rest);
        }
    }
}

/// The message of a JSON, TOML or YAML error is the reader's own text: the
/// `Display` of serde_json's and yaml_serde's errors, the `message` of toml's.
pub proof fn law_error_message_is_the_readers(e: ConvertError)
    ensures
        e matches ConvertError::Json(j) ==> e.message() == json_error_display(j),
        e matches ConvertError::Toml(t) ==> e.message() == toml_error_message(t),
        e matches ConvertError::Yaml(y) ==> e.message() == yaml_error_display(y),
        e matches ConvertError::Ini(k) ==> e.message() == k.text(),
{
}

/// The prefix that the INI reader puts before its syntax errors.
pub open spec fn ini_syntax_prefix() -> Seq<char> {
    "INI syntax error: "@
}

impl IniError {
    /// The message of the error, without the INI reader's syntax-error prefix.
    pub open spec fn text(self) -> Seq<char> {
        match self {
            IniError::Custom(message) => strip_prefix_or_keep(message@, ini_syntax_prefix()),
            IniError::UnexpectedEof => "unexpected end of file"@,
            IniError::InvalidState => "invalid state"@,
        }
    }

    /// The message of the error.
    pub fn to_string(&self) -> (r: String)
        ensures
            r@ == self.text(),
    {
        match self {
            IniError::Custom(message) => String::from_str(
                strip_prefix_or_whole(message.as_str(), "INI syntax error: "),
            ),
            IniError::UnexpectedEof => String::from_str("unexpected end of file"),
            IniError::InvalidState => String::from_str("invalid state"),
        }
    }
}

impl ConvertError {
    /// The format whose reader gave the error.
    pub open spec fn source_format(self) -> Format {
        match self {
            ConvertError::Ini(_) => Format::Ini,
            ConvertError::Json(_) => Format::Json,
            ConvertError::Toml(_) => Format::Toml,
            ConvertError::Yaml(_) => Format::Yaml,
        }
    }

    /// The message of the error: for INI without the reader's syntax-error
    /// prefix, for TOML without the location.
    pub open spec fn message(self) -> Seq<char> {
        match self {
            ConvertError::Ini(e) => e.text(),
            ConvertError::Json(e) => json_error_display(e),
            ConvertError::Toml(e) => toml_error_message(e),
            ConvertError::Yaml(e) => yaml_error_display(e),
        }
    }

    /// The message of the error: for INI without the reader's syntax-error
    /// prefix, for TOML without the location.
    pub fn to_string(&self) -> (r: String)
        ensures
            r@ == self.message(),
    {
        match self {
            ConvertError::Ini(e) => e.to_string(),
            ConvertError::Json(e) => json_error_text(e),
            ConvertError::Toml(e) => toml_error_text(e),
            ConvertError::Yaml(e) => yaml_error_text(e),
        }
    }
}

impl Format {
    /// The name of the format as it is shown to users.
    pub open spec fn display_name(self) -> Seq<char> {
        match self {
            Format::Ini => "INI"@,
            Format::Json => "JSON"@,
            Format::Toml => "TOML"@,
            Format::Yaml => "YAML"@,
        }
    }

    /// The format's name in lowercase, as syntax highlighters know it.
    pub open spec fn language_name(self) -> Seq<char> {
        match self {
            Format::Ini => "ini"@,
            Format::Json => "json"@,
            Format::Toml => "toml"@,
            Format::Yaml => "yaml"@,
        }
    }

    /// All formats, in the order in which they are offered.
    pub open spec fn all() -> Seq<Format> {
        seq![Format::Ini, Format::Json, Format::Toml, Format::Yaml]
    }

    /// All formats, each once, in the order in which they are offered.
    pub fn iter() -> (r: Vec<Format>)
        ensures
            r@ == Format::all(),
            forall|f: Format| r@.contains(f),
            r@.no_duplicates(),
    {
        let r = vec![Format::Ini, Format::Json, Format::Toml, Format::Yaml];
        assert(r@ =~= Format::all());
        assert forall|f: Format| r@.contains(f) by {
            match f {
                Format::Ini => assert(r@[0] == f),
                Format::Json => assert(r@[1] == f),
                Format::Toml => assert(r@[2] == f),
                Format::Yaml => assert(r@[3] == f),
            }
        }
        r
    }

    /// The name of the format as it is shown to users.
    pub fn to_string(&self) -> (r: String)
        ensures
            r@ == self.display_name(),
    {
        match self {
            Format::Ini => String::from_str("INI"),
            Format::Json => String::from_str("JSON"),
            Format::Toml => String::from_str("TOML"),
            Format::Yaml => String::from_str("YAML"),
        }
    }

    /// The language of the format's editor: its display name, ASCII-lowercased.
    pub fn language_id(&self) -> (r: &'static str)
        ensures
            r@ == self.language_name(),
            lower_eq(self.display_name(), r@),
    {
        proof {
            reveal_strlit("INI");
            reveal_strlit("ini");
            reveal_strlit("JSON");
            reveal_strlit("json");
            reveal_strlit("TOML");
            reveal_strlit("toml");
            reveal_strlit("YAML");
            reveal_strlit("yaml");
        }
        match self {
            Format::Ini => "ini",
            Format::Json => "json",
            Format::Toml => "toml",
            Format::Yaml => "yaml",
        }
    }

    /// Translates `input`, written in this format, to Nix.
    pub fn to_nix(&self, input: &str) -> (res: Result<String, ConvertError>)
        ensures
            translated(res, *self, input@),
    {
        match self {
            Format::Ini => ini_to_nix(input),
            Format::Json => json_to_nix(input),
            Format::Toml => toml_to_nix(input),
            Format::Yaml => yaml_to_nix(input),
        }
    }
}

impl From<serde_ini::de::Error> for ConvertError {
    /// The error of the INI reader, its variants told apart.
    fn from(e: serde_ini::de::Error) -> (r: ConvertError) {
        ConvertError::Ini(ini_error_of(e))
    }
}

impl vstd::std_specs::convert::FromSpecImpl<serde_ini::de::Error> for ConvertError {
    open spec fn obeys_from_spec() -> bool {
        true
    }

    open spec fn from_spec(v: serde_ini::de::Error) -> ConvertError {
        ConvertError::Ini(ini_error_kind(v))
    }
}

impl From<serde_json::Error> for ConvertError {
    /// The error of the JSON reader.
    fn from(e: serde_json::Error) -> (r: ConvertError) {
        ConvertError::Json(e)
    }
}

impl vstd::std_specs::convert::FromSpecImpl<serde_json::Error> for ConvertError {
    open spec fn obeys_from_spec() -> bool {
        true
    }

    open spec fn from_spec(v: serde_json::Error) -> ConvertError {
        ConvertError::Json(v)
    }
}

impl From<toml::de::Error> for ConvertError {
    /// The error of the TOML reader.
    fn from(e: toml::de::Error) -> (r: ConvertError) {
        ConvertError::Toml(e)
    }
}

impl vstd::std_specs::convert::FromSpecImpl<toml::de::Error> for ConvertError {
    open spec fn obeys_from_spec() -> bool {
        true
    }

    open spec fn from_spec(v: toml::de::Error) -> ConvertError {
        ConvertError::Toml(v)
    }
}

impl From<yaml_serde::Error> for ConvertError {
    /// The error of the YAML reader.
    fn from(e: yaml_serde::Error) -> (r: ConvertError) {
        ConvertError::Yaml(e)
    }
}

impl vstd::std_specs::convert::FromSpecImpl<yaml_serde::Error> for ConvertError {
    open spec fn obeys_from_spec() -> bool {
        true
    }

    open spec fn from_spec(v: yaml_serde::Error) -> ConvertError {
        ConvertError::Yaml(v)
    }
}

/// Translates INI text to Nix; `ConvertError::Ini` where it is not valid INI.
pub fn ini_to_nix(input: &str) -> (res: Result<String, ConvertError>)
    ensures
        translated(res, Format::Ini, input@),
        match res {
            Ok(nix) => ini_outcome(input@) == Ok::<Seq<char>, IniError>(nix@),
            Err(e) => e matches ConvertError::Ini(k) && ini_outcome(input@) == Err::<
                Seq<char>,
                IniError,
            >(k),
        },
{
    match translate_ini(input) {
        Ok(nix) => Ok(nix),
        Err(e) => Err(ConvertError::from(e)),
    }
}

/// Translates JSON text to Nix; `ConvertError::Json` where it is not valid JSON.
pub fn json_to_nix(input: &str) -> (res: Result<String, ConvertError>)
    ensures
        translated(res, Format::Json, input@),
        match res {
            Ok(nix) => json_outcome(input@) == Ok::<Seq<char>, Seq<char>>(nix@),
            Err(e) => e matches ConvertError::Json(j) && json_outcome(input@) == Err::<
                Seq<char>,
                Seq<char>,
            >(json_error_display(j)),
        },
{
    match translate_json(input) {
        Ok(nix) => Ok(nix),
        Err(e) => Err(ConvertError::from(e)),
    }
}

/// Translates TOML text to Nix; `ConvertError::Toml` where it is not valid TOML.
pub fn toml_to_nix(input: &str) -> (res: Result<String, ConvertError>)
    ensures
        translated(res, Format::Toml, input@),
        match res {
            Ok(nix) => toml_outcome(input@) == Ok::<Seq<char>, Seq<char>>(nix@),
            Err(e) => e matches ConvertError::Toml(t) && toml_outcome(input@) == Err::<
                Seq<char>,
                Seq<char>,
            >(toml_error_message(t)),
        },
{
    match translate_toml(input) {
        Ok(nix) => Ok(nix),
        Err(e) => Err(ConvertError::from(e)),
    }
}

/// Translates YAML text to Nix; `ConvertError::Yaml` where it is not valid YAML.
pub fn yaml_to_nix(input: &str) -> (res: Result<String, ConvertError>)
    ensures
        translated(res, Format::Yaml, input@),
        match res {
            Ok(nix) => yaml_outcome(input@) == Ok::<Seq<char>, Seq<char>>(nix@),
            Err(e) => e matches ConvertError::Yaml(y) && yaml_outcome(input@) == Err::<
                Seq<char>,
                Seq<char>,
            >(yaml_error_display(y)),
        },
{
    match translate_yaml(input) {
        Ok(nix) => Ok(nix),
        Err(e) => Err(ConvertError::from(e)),
    }
}

} // verus!
