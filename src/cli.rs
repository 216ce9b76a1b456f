use vstd::prelude::*;
use std::path::{Path, PathBuf};
use crate::auth::TextSignFormat;
use crate::codec::Base64Format;
use crate::text::same_text;
use vstd::string::StringExecFns;

verus! {

#[verifier::external_type_specification]
#[verifier::external_body]
pub struct ExPathBuf(std::path::PathBuf);

/// The path that the text `s` names.
pub uninterp spec fn path_of(s: Seq<char>) -> PathBuf;

/// Relies on `From<&str>` for `std::path::PathBuf`: the path holds the text as given.
#[verifier::external_body]
fn to_path_buf(s: &str) -> (r: PathBuf)
    ensures
        r == path_of(s@),
{
    PathBuf::from(s)
}

/// Relies on `std::path::Path::exists`: whether something is found at the path now.
#[verifier::external_body]
fn path_exists(s: &str) -> (r: bool) {
    Path::new(s).exists()
}

/// Relies on `std::path::Path::is_dir`: whether a directory is found at the path now.
#[verifier::external_body]
fn path_is_dir(s: &str) -> (r: bool) {
    Path::new(s).is_dir()
}

/// The command line of the tool.
#[derive(Debug)]
pub struct Opts {
    pub cmd: SubCommand,
}

#[derive(Debug)]
pub enum SubCommand {
    /// Show a CSV file, or convert it to another format.
    Csv(CsvOpts),
    /// Generate a random password.
    GenPass(GenPassOpts),
    /// Encode or decode base64.
    Base64(Base64SubCommand),
    /// Sign or verify content, or generate a key.
    Text(TextSubCommand),
}

#[derive(Clone, Copy, Debug, PartialEq, Eq, Structural)]
pub enum OutputFormat {
    Json,
    Yaml,
}

#[derive(Debug)]
pub struct CsvOpts {
    pub input: String,
    pub output: String,
    pub format: OutputFormat,
    pub delimiter: char,
    pub header: bool,
}

#[derive(Debug)]
pub struct GenPassOpts {
    pub length: u8,
    pub uppercase: bool,
    pub lowercase: bool,
    pub numbers: bool,
    pub symbols: bool,
}

#[derive(Debug)]
pub enum Base64SubCommand {
    Encode(Base64EncodeOpts),
    Decode(Base64DecodeOpts),
}

#[derive(Debug)]
pub struct Base64EncodeOpts {
    pub input: String,
    pub format: Base64Format,
}

#[derive(Debug)]
pub struct Base64DecodeOpts {
    pub input: String,
    pub format: Base64Format,
}

#[derive(Debug)]
pub enum TextSubCommand {
    Sign(TextSignOpts),
    Verify(TextVerifyOpts),
    Generate(KeyGenerateOpts),
}

#[derive(Debug)]
pub struct TextSignOpts {
    pub input: String,
    pub key: String,
    pub format: TextSignFormat,
}

#[derive(Debug)]
pub struct TextVerifyOpts {
    pub input: String,
    pub key: String,
    pub format: TextSignFormat,
    pub sig: String,
}

#[derive(Debug)]
pub struct KeyGenerateOpts {
    pub format: TextSignFormat,
    pub output: PathBuf,
}

pub open spec fn missing_file_message(m: &str) -> bool {
    m@ == "File does not exist"@
}

pub open spec fn missing_dir_message(m: &str) -> bool {
    m@ == "Path does not exist or is not a directory."@
}

/// Accepts `filename` where it is `-` (standard input) or `exists` says that it is there.
pub fn check_file(filename: &str, exists: bool) -> (r: Result<String, &'static str>)
    ensures
        match r {
            Ok(s) => s@ == filename@ && (filename@ == "-"@ || exists),
            Err(m) => filename@ != "-"@ && !exists && missing_file_message(m),
        },
{
    if same_text(filename, "-") || exists {
        Ok(filename.to_owned())
    } else {
        Err("File does not exist")
    }
}

/// Accepts an input name: `-` for standard input, or a file that is there.
pub fn verify_file(filename: &str) -> (r: Result<String, &'static str>)
    ensures
        match r {
            Ok(s) => s@ == filename@,
            Err(m) => filename@ != "-"@ && missing_file_message(m),
        },
        filename@ == "-"@ ==> r is Ok,
{
    if same_text(filename, "-") {
        check_file(filename, false)
    } else {
        let exists = path_exists(filename);
        check_file(filename, exists)
    }
}

/// Accepts `path` where `exists` and `is_dir` both hold of it.
pub fn check_dir(path: &str, exists: bool, is_dir: bool) -> (r: Result<PathBuf, &'static str>)
    ensures
        match r {
            Ok(p) => p == path_of(path@) && exists && is_dir,
            Err(m) => !(exists && is_dir) && missing_dir_message(m),
        },
{
    if exists && is_dir {
        Ok(to_path_buf(path))
    } else {
        Err("Path does not exist or is not a directory.")
    }
}

/// Accepts a path that names an existing directory.
pub fn verify_path(path: &str) -> (r: Result<PathBuf, &'static str>)
    ensures
        match r {
            Ok(p) => p == path_of(path@),
            Err(m) => missing_dir_message(m),
        },
{
    let exists = path_exists(path);
    let is_dir = if exists {
        path_is_dir(path)
    } else {
        false
    };
    check_dir(path, exists, is_dir)
}

/// The error message that names a rejected `input`.
fn rejected(prefix: &str, input: &str) -> (r: String)
    ensures
        r@ == prefix@ + input@,
{
    prefix.to_owned().concat(input)
}

impl OutputFormat {
    /// The name of the format on the command line.
    pub fn as_str(self) -> (r: &'static str)
        ensures
            self == OutputFormat::Json ==> r@ == "json"@,
            self == OutputFormat::Yaml ==> r@ == "yaml"@,
    {
        match self {
            OutputFormat::Json => "json",
            OutputFormat::Yaml => "yaml",
        }
    }
}

/// Reads an output format by name: `json` or `yaml`.
pub fn parse_format(s: &str) -> (r: Result<OutputFormat, String>)
    ensures
        r == Ok::<OutputFormat, String>(OutputFormat::Json) <==> s@ == "json"@,
        r == Ok::<OutputFormat, String>(OutputFormat::Yaml) <==> s@ == "yaml"@,
        match r {
            Ok(_) => true,
            Err(m) => s@ != "json"@ && s@ != "yaml"@ && m@ == "Invalid output format: "@ + s@,
        },
{
    proof {
        reveal_strlit("json");
        reveal_strlit("yaml");
        assert("json"@[0] != "yaml"@[0]);
    }
    if same_text(s, "json") {
        Ok(OutputFormat::Json)
    } else if same_text(s, "yaml") {
        Ok(OutputFormat::Yaml)
    } else {
        Err(rejected("Invalid output format: ", s))
    }
}

/// Reads a base64 alphabet by name: `standard` or `urlsafe`.
pub fn parse_base64_format(s: &str) -> (r: Result<Base64Format, String>)
    ensures
        r == Ok::<Base64Format, String>(Base64Format::Standard) <==> s@ == "standard"@,
        r == Ok::<Base64Format, String>(Base64Format::UrlSafe) <==> s@ == "urlsafe"@,
        match r {
            Ok(_) => true,
            Err(m) => m@ == "Invalid base64 format: "@ + s@,
        },
{
    proof {
        reveal_strlit("standard");
        reveal_strlit("urlsafe");
        assert("standard"@[0] != "urlsafe"@[0]);
    }
    if same_text(s, "standard") {
        Ok(Base64Format::Standard)
    } else if same_text(s, "urlsafe") {
        Ok(Base64Format::UrlSafe)
    } else {
        Err(rejected("Invalid base64 format: ", s))
    }
}

/// Reads a signing scheme by name: `blake3` or `ed25519`.
pub fn parse_text_sign_format(s: &str) -> (r: Result<TextSignFormat, String>)
    ensures
        r == Ok::<TextSignFormat, String>(TextSignFormat::Blake3) <==> s@ == "blake3"@,
        r == Ok::<TextSignFormat, String>(TextSignFormat::Ed25519) <==> s@ == "ed25519"@,
        match r {
            Ok(_) => true,
            Err(m) => m@ == "Invalid text sign format: "@ + s@,
        },
{
    proof {
        reveal_strlit("blake3");
        reveal_strlit("ed25519");
        assert("blake3"@[0] != "ed25519"@[0]);
    }
    if same_text(s, "blake3") {
        Ok(TextSignFormat::Blake3)
    } else if same_text(s, "ed25519") {
        Ok(TextSignFormat::Ed25519)
    } else {
        Err(rejected("Invalid text sign format: ", s))
    }
}

} // verus!
