//! Describes a type that is extracted from a request: where each of its
//! fields comes from, how it is parsed and under which name it is looked up.

use std::str::FromStr;
use vstd::prelude::*;

use crate::error::Error;
use crate::text::{
    ascii_uppercase, is_word, push_text, replace_char, spec_ascii_uppercase, spec_replace_char,
};

verus! {

/// The name in `PascalCase`, as `cruet::to_pascal_case` makes it.
pub uninterp spec fn spec_pascal_case(name: Seq<char>) -> Seq<char>;

/// The name in `camelCase`, as `cruet::to_camel_case` makes it.
pub uninterp spec fn spec_camel_case(name: Seq<char>) -> Seq<char>;

/// The name in `snake_case`, as `cruet::to_snake_case` makes it.
pub uninterp spec fn spec_snake_case(name: Seq<char>) -> Seq<char>;

/// The name in lower case, as `str::to_lowercase` makes it.
pub uninterp spec fn spec_lowercase(name: Seq<char>) -> Seq<char>;

/// The name in upper case, as `str::to_uppercase` makes it.
pub uninterp spec fn spec_uppercase(name: Seq<char>) -> Seq<char>;

/// Calls `cruet::to_pascal_case`, whose result depends on the name alone and
/// is what [`spec_pascal_case`] names.
#[verifier::external_body]
fn pascal_case(name: &str) -> (out: String)
    ensures
        out@ == spec_pascal_case(name@),
{
    cruet::to_pascal_case(name)
}

/// Calls `cruet::to_camel_case`, whose result depends on the name alone and
/// is what [`spec_camel_case`] names.
#[verifier::external_body]
fn camel_case(name: &str) -> (out: String)
    ensures
        out@ == spec_camel_case(name@),
{
    cruet::to_camel_case(name)
}

/// Calls `cruet::to_snake_case`, whose result depends on the name alone and
/// is what [`spec_snake_case`] names.
#[verifier::external_body]
fn snake_case(name: &str) -> (out: String)
    ensures
        out@ == spec_snake_case(name@),
{
    cruet::to_snake_case(name)
}

/// Calls `str::to_lowercase`, whose result depends on the name alone and is
/// what [`spec_lowercase`] names.
#[verifier::external_body]
fn lowercase(name: &str) -> (out: String)
    ensures
        out@ == spec_lowercase(name@),
{
    name.to_lowercase()
}

/// Calls `str::to_uppercase`, whose result depends on the name alone and is
/// what [`spec_uppercase`] names.
#[verifier::external_body]
fn uppercase(name: &str) -> (out: String)
    ensures
        out@ == spec_uppercase(name@),
{
    name.to_uppercase()
}

/// Where a field is taken from.
#[derive(Clone, Copy, Debug, PartialEq, Eq, Structural)]
#[non_exhaustive]
pub enum SourceFrom {
    /// From a parameter of the URL's path.
    Param,
    /// From the URL's query.
    Query,
    /// From a header.
    Header,
    /// From a cookie.
    Cookie,
    /// From the body.
    Body,
}

impl SourceFrom {
    /// The source that `input` names, if it names one.
    pub open spec fn spec_parse(input: Seq<char>) -> Option<SourceFrom> {
        if input == "param"@ {
            Some(SourceFrom::Param)
        } else if input == "query"@ {
            Some(SourceFrom::Query)
        } else if input == "header"@ {
            Some(SourceFrom::Header)
        } else if input == "cookie"@ {
            Some(SourceFrom::Cookie)
        } else if input == "body"@ {
            Some(SourceFrom::Body)
        } else {
            None
        }
    }

    /// The source that `input` names: one of `param`, `query`, `header`,
    /// `cookie` and `body`. Any other input is an error that quotes it.
    pub fn parse(input: &str) -> (parsed: Result<SourceFrom, Error>)
        ensures
            match parsed {
                Ok(from) => Self::spec_parse(input@) == Some(from),
                Err(error) => Self::spec_parse(input@) is None && error.spec_message()
                    == "invalid source from `"@ + input@ + "`"@,
            },
    {
        if is_word(input, "param") {
            Ok(SourceFrom::Param)
        } else if is_word(input, "query") {
            Ok(SourceFrom::Query)
        } else if is_word(input, "header") {
            Ok(SourceFrom::Header)
        } else if is_word(input, "cookie") {
            Ok(SourceFrom::Cookie)
        } else if is_word(input, "body") {
            Ok(SourceFrom::Body)
        } else {
            let mut message = String::new();
            push_text(&mut message, "invalid source from `");
            push_text(&mut message, input);
            push_text(&mut message, "`");
            assert(message@ =~= "invalid source from `"@ + input@ + "`"@);
            Err(Error::Other(message))
        }
    }
}

impl FromStr for SourceFrom {
    type Err = Error;

    /// The source that `input` names, as [`SourceFrom::parse`] reads it.
    fn from_str(input: &str) -> (parsed: Result<Self, Self::Err>)
        ensures
            match parsed {
                Ok(from) => SourceFrom::spec_parse(input@) == Some(from),
                Err(error) => SourceFrom::spec_parse(input@) is None && error.spec_message()
                    == "invalid source from `"@ + input@ + "`"@,
            },
    {
        SourceFrom::parse(input)
    }
}

/// How the fields of a type are renamed.
#[derive(Clone, Copy, Debug, PartialEq, Eq, Structural)]
#[non_exhaustive]
pub enum RenameRule {
    /// To `lowercase`.
    LowerCase,
    /// To `UPPERCASE`.
    UpperCase,
    /// To `PascalCase`.
    PascalCase,
    /// To `camelCase`.
    CamelCase,
    /// To `snake_case`.
    SnakeCase,
    /// To `SCREAMING_SNAKE_CASE`.
    ScreamingSnakeCase,
    /// To `kebab-case`.
    KebabCase,
    /// To `SCREAMING-KEBAB-CASE`.
    ScreamingKebabCase,
}

impl RenameRule {
    /// The rule that `input` names, if it names one.
    pub open spec fn spec_parse(input: Seq<char>) -> Option<RenameRule> {
        if input == "lowercase"@ {
            Some(RenameRule::LowerCase)
        } else if input == "UPPERCASE"@ {
            Some(RenameRule::UpperCase)
        } else if input == "PascalCase"@ {
            Some(RenameRule::PascalCase)
        } else if input == "camelCase"@ {
            Some(RenameRule::CamelCase)
        } else if input == "snake_case"@ {
            Some(RenameRule::SnakeCase)
        } else if input == "SCREAMING_SNAKE_CASE"@ {
            Some(RenameRule::ScreamingSnakeCase)
        } else if input == "kebab-case"@ {
            Some(RenameRule::KebabCase)
        } else if input == "SCREAMING-KEBAB-CASE"@ {
            Some(RenameRule::ScreamingKebabCase)
        } else {
            None
        }
    }

    /// The rule that `input` names: each rule is named in its own style.
    /// Any other input is an error that quotes it.
    pub fn parse(input: &str) -> (parsed: Result<RenameRule, Error>)
        ensures
            match parsed {
                Ok(rule) => Self::spec_parse(input@) == Some(rule),
                Err(error) => Self::spec_parse(input@) is None && error.spec_message()
                    == "invalid rename rule: "@ + input@,
            },
    {
        if is_word(input, "lowercase") {
            Ok(RenameRule::LowerCase)
        } else if is_word(input, "UPPERCASE") {
            Ok(RenameRule::UpperCase)
        } else if is_word(input, "PascalCase") {
            Ok(RenameRule::PascalCase)
        } else if is_word(input, "camelCase") {
            Ok(RenameRule::CamelCase)
        } else if is_word(input, "snake_case") {
            Ok(RenameRule::SnakeCase)
        } else if is_word(input, "SCREAMING_SNAKE_CASE") {
            Ok(RenameRule::ScreamingSnakeCase)
        } else if is_word(input, "kebab-case") {
            Ok(RenameRule::KebabCase)
        } else if is_word(input, "SCREAMING-KEBAB-CASE") {
            Ok(RenameRule::ScreamingKebabCase)
        } else {
            let mut message = String::new();
            push_text(&mut message, "invalid rename rule: ");
            push_text(&mut message, input);
            assert(message@ =~= "invalid rename rule: "@ + input@);
            Err(Error::Other(message))
        }
    }

    /// `name` as the rule renames it.
    pub open spec fn spec_rename(&self, name: Seq<char>) -> Seq<char> {
        match self {
            RenameRule::PascalCase => spec_pascal_case(name),
            RenameRule::LowerCase => spec_lowercase(name),
            RenameRule::UpperCase => spec_uppercase(name),
            RenameRule::CamelCase => spec_camel_case(name),
            RenameRule::SnakeCase => spec_snake_case(name),
            RenameRule::ScreamingSnakeCase => spec_ascii_uppercase(spec_snake_case(name)),
            RenameRule::KebabCase => spec_replace_char(spec_snake_case(name), '_', '-'),
            RenameRule::ScreamingKebabCase => spec_replace_char(
                spec_ascii_uppercase(spec_snake_case(name)),
                '_',
                '-',
            ),
        }
    }

    /// Renames `name` by the rule. The screaming styles are the snake style
    /// in ASCII upper case, and the kebab styles have `-` where the snake
    /// styles have `_`.
    pub fn rename(&self, name: &str) -> (renamed: String)
        ensures
            renamed@ == self.spec_rename(name@),
    {
        match self {
            RenameRule::PascalCase => pascal_case(name),
            RenameRule::LowerCase => lowercase(name),
            RenameRule::UpperCase => uppercase(name),
            RenameRule::CamelCase => camel_case(name),
            RenameRule::SnakeCase => snake_case(name),
            RenameRule::ScreamingSnakeCase => {
                let snake = snake_case(name);
                ascii_uppercase(snake.as_str())
            },
            RenameRule::KebabCase => {
                let snake = snake_case(name);
                replace_char(snake.as_str(), '_', '-')
            },
            RenameRule::ScreamingKebabCase => {
                let snake = snake_case(name);
                let screaming = ascii_uppercase(snake.as_str());
                replace_char(screaming.as_str(), '_', '-')
            },
        }
    }
}

impl FromStr for RenameRule {
    type Err = Error;

    /// The rule that `input` names, as [`RenameRule::parse`] reads it.
    fn from_str(input: &str) -> (parsed: Result<Self, Self::Err>)
        ensures
            match parsed {
                Ok(rule) => RenameRule::spec_parse(input@) == Some(rule),
                Err(error) => RenameRule::spec_parse(input@) is None && error.spec_message()
                    == "invalid rename rule: "@ + input@,
            },
    {
        RenameRule::parse(input)
    }
}

/// How the text of a field is parsed. This is about the field, not about
/// the media type of the request.
#[derive(Clone, Copy, Debug, PartialEq, Eq, Structural)]
#[non_exhaustive]
pub enum SourceParser {
    /// As a map from names to lists of values.
    MultiMap,
    /// As JSON.
    Json,
    /// As whatever fits.
    Smart,
}

impl SourceParser {
    /// The parser that `input` names, if it names one.
    pub open spec fn spec_parse(input: Seq<char>) -> Option<SourceParser> {
        if input == "multimap"@ {
            Some(SourceParser::MultiMap)
        } else if input == "json"@ {
            Some(SourceParser::Json)
        } else if input == "smart"@ {
            Some(SourceParser::Smart)
        } else {
            None
        }
    }

    /// The parser that `input` names: one of `multimap`, `json` and `smart`.
    pub fn parse(input: &str) -> (parsed: Result<SourceParser, Error>)
        ensures
            match parsed {
                Ok(parser) => Self::spec_parse(input@) == Some(parser),
                Err(error) => Self::spec_parse(input@) is None && error.spec_message()
                    == "invalid source format"@,
            },
    {
        if is_word(input, "multimap") {
            Ok(SourceParser::MultiMap)
        } else if is_word(input, "json") {
            Ok(SourceParser::Json)
        } else if is_word(input, "smart") {
            Ok(SourceParser::Smart)
        } else {
            Err(Error::other("invalid source format"))
        }
    }
}

impl FromStr for SourceParser {
    type Err = Error;

    /// The parser that `input` names, as [`SourceParser::parse`] reads it.
    fn from_str(input: &str) -> (parsed: Result<Self, Self::Err>)
        ensures
            match parsed {
                Ok(parser) => SourceParser::spec_parse(input@) == Some(parser),
                Err(error) => SourceParser::spec_parse(input@) is None && error.spec_message()
                    == "invalid source format"@,
            },
    {
        SourceParser::parse(input)
    }
}

/// One place a field can come from, and how its text is parsed.
#[derive(Clone, Copy, Debug, PartialEq, Eq, Structural)]
#[non_exhaustive]
pub struct Source {
    /// Where the field is taken from.
    pub from: SourceFrom,
    /// How its text is parsed.
    pub parser: SourceParser,
}

impl Source {
    /// The source that takes from `from` and parses with `parser`.
    pub fn new(from: SourceFrom, parser: SourceParser) -> (source: Self)
        ensures
            source.from == from,
            source.parser == parser,
    {
        Source { from, parser }
    }
}

/// Whether one of `sources` takes from the body.
pub open spec fn spec_any_from_body(sources: Seq<Source>) -> bool {
    exists|i: int| 0 <= i < sources.len() && (#[trigger] sources[i]).from == SourceFrom::Body
}

/// Whether one of `sources` takes from the body.
pub fn any_from_body(sources: &Vec<Source>) -> (found: bool)
    ensures
        found == spec_any_from_body(sources@),
{
    let mut i: usize = 0;
    while i < sources.len()
        invariant
            i <= sources.len(),
            forall|j: int| 0 <= j < i ==> (#[trigger] sources@[j]).from != SourceFrom::Body,
        decreases sources.len() - i,
    {
        if sources[i].from == SourceFrom::Body {
            return true;
        }
        i += 1;
    }
    false
}

/// What is known of one field of a type.
#[derive(Clone, Debug)]
#[non_exhaustive]
pub struct Field {
    /// The name of the field.
    pub name: &'static str,
    /// Whether the field is flattened: its own fields are looked up in the
    /// request as if they were fields of the type.
    pub flatten: bool,
    /// Where the field can come from.
    pub sources: Vec<Source>,
    /// The other names under which the field is looked up.
    pub aliases: Vec<&'static str>,
    /// The name under which the field is looked up instead of its own.
    pub rename: Option<&'static str>,
    /// What is known of the field's type, where that is extracted too.
    pub metadata: Option<&'static Metadata>,
}

impl Field {
    /// A field named `name`, of which nothing else is known.
    pub fn new(name: &'static str) -> (field: Self)
        ensures
            field.name == name,
            !field.flatten,
            field.sources@.len() == 0,
            field.aliases@.len() == 0,
            field.rename is None,
            field.metadata is None,
    {
        Self::with_sources(name, Vec::new())
    }

    /// A field named `name` that can come from `sources`.
    pub fn with_sources(name: &'static str, sources: Vec<Source>) -> (field: Self)
        ensures
            field.name == name,
            !field.flatten,
            field.sources == sources,
            field.aliases@.len() == 0,
            field.rename is None,
            field.metadata is None,
    {
        Field { name, flatten: false, sources, aliases: Vec::new(), rename: None, metadata: None }
    }

    /// Sets whether the field is flattened.
    pub fn set_flatten(self, flatten: bool) -> (field: Self)
        ensures
            field.flatten == flatten,
            field.name == self.name,
            field.sources == self.sources,
            field.aliases == self.aliases,
            field.rename == self.rename,
            field.metadata == self.metadata,
    {
        let mut field = self;
        field.flatten = flatten;
        field
    }

    /// Sets what is known of the field's type.
    pub fn metadata(self, metadata: &'static Metadata) -> (field: Self)
        ensures
            field.metadata == Some(metadata),
            field.name == self.name,
            field.flatten == self.flatten,
            field.sources == self.sources,
            field.aliases == self.aliases,
            field.rename == self.rename,
    {
        let mut field = self;
        field.metadata = Some(metadata);
        field
    }

    /// Adds a source after those the field has.
    pub fn add_source(self, source: Source) -> (field: Self)
        ensures
            field.sources@ == self.sources@.push(source),
            field.name == self.name,
            field.flatten == self.flatten,
            field.aliases == self.aliases,
            field.rename == self.rename,
            field.metadata == self.metadata,
    {
        let mut field = self;
        field.sources.push(source);
        field
    }

    /// Replaces the aliases of the field.
    pub fn set_aliases(self, aliases: Vec<&'static str>) -> (field: Self)
        ensures
            field.aliases == aliases,
            field.name == self.name,
            field.flatten == self.flatten,
            field.sources == self.sources,
            field.rename == self.rename,
            field.metadata == self.metadata,
    {
        let mut field = self;
        field.aliases = aliases;
        field
    }

    /// Adds an alias after those the field has.
    pub fn add_alias(self, alias: &'static str) -> (field: Self)
        ensures
            field.aliases@ == self.aliases@.push(alias),
            field.name == self.name,
            field.flatten == self.flatten,
            field.sources == self.sources,
            field.rename == self.rename,
            field.metadata == self.metadata,
    {
        let mut field = self;
        field.aliases.push(alias);
        field
    }

    /// Sets the name under which the field is looked up.
    pub fn rename(self, rename: &'static str) -> (field: Self)
        ensures
            field.rename == Some(rename),
            field.name == self.name,
            field.flatten == self.flatten,
            field.sources == self.sources,
            field.aliases == self.aliases,
            field.metadata == self.metadata,
    {
        let mut field = self;
        field.rename = Some(rename);
        field
    }

    /// Whether the field needs the body of the request: one of its sources
    /// takes from the body.
    pub open spec fn spec_has_body_required(&self) -> bool {
        spec_any_from_body(self.sources@)
    }

    /// Whether the field needs the body of the request.
    pub fn has_body_required(&self) -> (required: bool)
        ensures
            required == self.spec_has_body_required(),
    {
        any_from_body(&self.sources)
    }
}

/// What is known of a type that is extracted from a request.
#[derive(Clone, Debug, Default)]
#[non_exhaustive]
pub struct Metadata {
    /// The name of the type.
    pub name: &'static str,
    /// Where the fields come from that say nothing of their own.
    pub default_sources: Vec<Source>,
    /// The fields of the type.
    pub fields: Vec<Field>,
    /// How all the fields are renamed.
    pub rename_all: Option<RenameRule>,
}

impl Metadata {
    /// The description of a type named `name`, with nothing in it yet.
    pub fn new(name: &'static str) -> (metadata: Self)
        ensures
            metadata.name == name,
            metadata.default_sources@.len() == 0,
            metadata.fields@.len() == 0,
            metadata.rename_all is None,
    {
        Metadata { name, default_sources: Vec::new(), fields: Vec::new(), rename_all: None }
    }

    /// Replaces the default sources.
    pub fn default_sources(self, default_sources: Vec<Source>) -> (metadata: Self)
        ensures
            metadata.default_sources == default_sources,
            metadata.name == self.name,
            metadata.fields == self.fields,
            metadata.rename_all == self.rename_all,
    {
        let mut metadata = self;
        metadata.default_sources = default_sources;
        metadata
    }

    /// Replaces the fields.
    pub fn fields(self, fields: Vec<Field>) -> (metadata: Self)
        ensures
            metadata.fields == fields,
            metadata.name == self.name,
            metadata.default_sources == self.default_sources,
            metadata.rename_all == self.rename_all,
    {
        let mut metadata = self;
        metadata.fields = fields;
        metadata
    }

    /// Adds a default source after those there are.
    pub fn add_default_source(self, source: Source) -> (metadata: Self)
        ensures
            metadata.default_sources@ == self.default_sources@.push(source),
            metadata.name == self.name,
            metadata.fields == self.fields,
            metadata.rename_all == self.rename_all,
    {
        let mut metadata = self;
        metadata.default_sources.push(source);
        metadata
    }

    /// Adds a field after those there are.
    pub fn add_field(self, field: Field) -> (metadata: Self)
        ensures
            metadata.fields@ == self.fields@.push(field),
            metadata.name == self.name,
            metadata.default_sources == self.default_sources,
            metadata.rename_all == self.rename_all,
    {
        let mut metadata = self;
        metadata.fields.push(field);
        metadata
    }

    /// Sets the rule by which all fields are renamed, or takes it back with `None`.
    pub fn rename_all(self, rename_all: Option<RenameRule>) -> (metadata: Self)
        ensures
            metadata.rename_all == rename_all,
            metadata.name == self.name,
            metadata.default_sources == self.default_sources,
            metadata.fields == self.fields,
    {
        let mut metadata = self;
        metadata.rename_all = rename_all;
        metadata
    }

    /// Whether the type needs the body of the request: a default source or a
    /// source of one of its fields takes from the body.
    pub open spec fn spec_has_body_required(&self) -> bool {
        spec_any_from_body(self.default_sources@) || exists|i: int|
            0 <= i < self.fields@.len() && (#[trigger] self.fields@[i]).spec_has_body_required()
    }

    /// Whether the type needs the body of the request.
    pub fn has_body_required(&self) -> (required: bool)
        ensures
            required == self.spec_has_body_required(),
    {
        if any_from_body(&self.default_sources) {
            return true;
        }
        let mut i: usize = 0;
        while i < self.fields.len()
            invariant
                i <= self.fields.len(),
                !spec_any_from_body(self.default_sources@),
                forall|j: int| 0 <= j < i ==> !(#[trigger] self.fields@[j]).spec_has_body_required(),
            decreases self.fields.len() - i,
        {
            if self.fields[i].has_body_required() {
                return true;
            }
            i += 1;
        }
        false
    }
}

} // verus!
