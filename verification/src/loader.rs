//! Reading a package definition: the text is parsed as TOML by the `toml`
//! crate, and the definition is taken out of the parsed document here.
//!
//! A definition has a `meta` table (`repo` and `version`, and optionally
//! `suffix`, `checkout` and `patches`), a `build` table (`cmd`) and
//! optionally an array `checksums` of tables (`path` and `checksum`). Keys
//! that the definition does not know are passed over.

use crate::config::{rule_views, Build, Checksum, ChecksumView, Config, ConfigView, Meta, MetaView};
use crate::document::{
    parse_table, syntax_error_text, table_get, table_model, toml_parse, value_as_array,
    value_as_str, value_as_table, value_model, values_model, Node,
};
use crate::error::{RunError, RunErrorView};
use crate::text::{join, texts};
use vstd::prelude::*;

verus! {

/// What a table has under a key, read as a `T`.
pub ghost enum Field<T> {
    /// The table has no such key.
    Absent,
    /// The key holds a `T`.
    Present(T),
    /// The key holds something else.
    Invalid,
}

/// The string under a key.
pub open spec fn text_at(section: Map<Seq<char>, Node>, key: Seq<char>) -> Field<Seq<char>> {
    match section.get(key) {
        None => Field::Absent,
        Some(Node::Text(text)) => Field::Present(text),
        Some(_) => Field::Invalid,
    }
}

/// Every node is a string.
pub open spec fn all_text(items: Seq<Node>) -> bool {
    forall|i: int| 0 <= i < items.len() ==> #[trigger] items[i] is Text
}

/// The strings of a sequence of nodes.
pub open spec fn texts_of(items: Seq<Node>) -> Seq<Seq<char>> {
    Seq::new(items.len(), |i: int| items[i]->Text_0)
}

/// The array of strings under a key.
pub open spec fn texts_at(section: Map<Seq<char>, Node>, key: Seq<char>) -> Field<Seq<Seq<char>>> {
    match section.get(key) {
        None => Field::Absent,
        Some(Node::List(items)) => if all_text(items) {
            Field::Present(texts_of(items))
        } else {
            Field::Invalid
        },
        Some(_) => Field::Invalid,
    }
}

/// The `meta` section that a node stands for: a table with strings under
/// `repo` and `version`; `suffix`, `checkout` and `patches` may be absent,
/// and are then the empty string, no ref and no patch.
pub open spec fn meta_of(node: Node) -> Option<MetaView> {
    match node {
        Node::Section(section) => {
            let repo = text_at(section, "repo"@);
            let version = text_at(section, "version"@);
            let suffix = text_at(section, "suffix"@);
            let checkout = text_at(section, "checkout"@);
            let patches = texts_at(section, "patches"@);
            if repo is Present && version is Present && !(suffix is Invalid) && !(checkout
                is Invalid) && !(patches is Invalid) {
                Some(
                    MetaView {
                        repo: repo->Present_0,
                        version: version->Present_0,
                        suffix: if suffix is Present {
                            suffix->Present_0
                        } else {
                            Seq::empty()
                        },
                        checkout: if checkout is Present {
                            Some(checkout->Present_0)
                        } else {
                            None
                        },
                        patches: if patches is Present {
                            patches->Present_0
                        } else {
                            Seq::empty()
                        },
                    },
                )
            } else {
                None
            }
        },
        _ => None,
    }
}

/// The checksum rule that a node stands for: a table with strings under
/// `path` and `checksum`.
pub open spec fn rule_of(node: Node) -> Option<ChecksumView> {
    match node {
        Node::Section(section) => {
            let path = text_at(section, "path"@);
            let checksum = text_at(section, "checksum"@);
            if path is Present && checksum is Present {
                Some(ChecksumView { path: path->Present_0, checksum: checksum->Present_0 })
            } else {
                None
            }
        },
        _ => None,
    }
}

/// The checksum rules of a document: those of the array under `checksums`,
/// in its order; none where the key is absent.
pub open spec fn rules_of(document: Map<Seq<char>, Node>) -> Option<Seq<ChecksumView>> {
    match document.get("checksums"@) {
        None => Some(Seq::empty()),
        Some(Node::List(items)) => if forall|i: int|
            0 <= i < items.len() ==> (#[trigger] rule_of(items[i])) is Some {
            Some(Seq::new(items.len(), |i: int| rule_of(items[i])->Some_0))
        } else {
            None
        },
        Some(_) => None,
    }
}

/// The build command of a document: the string under `cmd` in the table
/// under `build`.
pub open spec fn command_of(document: Map<Seq<char>, Node>) -> Option<Seq<char>> {
    match document.get("build"@) {
        Some(Node::Section(section)) => match text_at(section, "cmd"@) {
            Field::Present(cmd) => Some(cmd),
            _ => None,
        },
        _ => None,
    }
}

/// The package definition that a document stands for, or `None` where a
/// required key is absent or a key of the definition holds a value of
/// another kind than the definition has there.
pub open spec fn config_of(document: Map<Seq<char>, Node>) -> Option<ConfigView> {
    match document.get("meta"@) {
        Some(node) => match (meta_of(node), rules_of(document), command_of(document)) {
            (Some(meta), Some(checksums), Some(cmd)) => Some(ConfigView { meta, checksums, cmd }),
            _ => None,
        },
        None => None,
    }
}

/// The package definition that a text stands for.
pub open spec fn config_of_text(text: Seq<char>) -> Option<ConfigView> {
    match toml_parse(text) {
        Some(document) => config_of(document),
        None => None,
    }
}

/// A result agrees with an expected definition: it is that definition, or
/// a parse error where none is expected.
pub open spec fn loads_as(result: Result<Config, RunError>, expected: Option<ConfigView>) -> bool {
    match expected {
        Some(config) => result is Ok && result->Ok_0@ == config,
        None => result is Err && result->Err_0 is Parse,
    }
}

/// The text of the error for a key that is absent though required.
pub open spec fn missing_field_text(key: Seq<char>) -> Seq<char> {
    "missing field `"@ + key + "`"@
}

/// The text of the error for a key that holds a value of the wrong kind,
/// where `expected` says what the definition has there.
pub open spec fn invalid_field_text(key: Seq<char>, expected: Seq<char>) -> Seq<char> {
    "invalid type for `"@ + key + "`, expected "@ + expected
}

/// The error for a key that is absent though required.
fn missing_field(key: &str) -> (error: RunError)
    ensures
        error@ == RunErrorView::Parse(missing_field_text(key@)),
{
    let head = join("missing field `", key);
    RunError::Parse(join(head.as_str(), "`"))
}

/// The error for a key that holds a value of the wrong kind.
fn invalid_field(key: &str, expected: &str) -> (error: RunError)
    ensures
        error@ == RunErrorView::Parse(invalid_field_text(key@, expected@)),
{
    let a = join("invalid type for `", key);
    let b = join(a.as_str(), "`, expected ");
    RunError::Parse(join(b.as_str(), expected))
}

/// The string under `key`, if the key is there.
fn optional_text_field(table: &toml::Table, key: &str) -> (result: Result<Option<String>, RunError>)
    ensures
        match text_at(table_model(*table), key@) {
            Field::Absent => result == Ok::<Option<String>, RunError>(None),
            Field::Present(text) => result is Ok && result->Ok_0 is Some
                && result->Ok_0->Some_0@ == text,
            Field::Invalid => result is Err && result->Err_0 is Parse,
        },
{
    match table_get(table, key) {
        None => Ok(None),
        Some(value) => match value_as_str(value) {
            Some(text) => Ok(Some(String::from_str(text))),
            None => Err(invalid_field(key, "a string")),
        },
    }
}

/// The string under `key`, which must be there.
fn required_text_field(table: &toml::Table, key: &str) -> (result: Result<String, RunError>)
    ensures
        match text_at(table_model(*table), key@) {
            Field::Present(text) => result is Ok && result->Ok_0@ == text,
            _ => result is Err && result->Err_0 is Parse,
        },
{
    match optional_text_field(table, key) {
        Ok(Some(text)) => Ok(text),
        Ok(None) => Err(missing_field(key)),
        Err(error) => Err(error),
    }
}

/// The array of strings under `key`, if the key is there.
fn optional_text_list(table: &toml::Table, key: &str) -> (result: Result<Option<Vec<String>>, RunError>)
    ensures
        match texts_at(table_model(*table), key@) {
            Field::Absent => result == Ok::<Option<Vec<String>>, RunError>(None),
            Field::Present(list) => result is Ok && result->Ok_0 is Some && texts(
                result->Ok_0->Some_0@,
            ) == list,
            Field::Invalid => result is Err && result->Err_0 is Parse,
        },
{
    let value = match table_get(table, key) {
        None => {
            return Ok(None);
        },
        Some(value) => value,
    };
    let items = match value_as_array(value) {
        None => {
            return Err(invalid_field(key, "an array of strings"));
        },
        Some(items) => items,
    };
    let ghost nodes = values_model(items@);
    let mut list: Vec<String> = Vec::new();
    let mut i: usize = 0;
    while i < items.len()
        invariant
            i <= items.len(),
            list@.len() == i,
            nodes == values_model(items@),
            table_model(*table).get(key@) == Some(Node::List(nodes)),
            forall|j: int| 0 <= j < i ==> #[trigger] nodes[j] == Node::Text(list@[j]@),
        decreases items.len() - i,
    {
        match value_as_str(&items[i]) {
            Some(text) => {
                list.push(String::from_str(text));
            },
            None => {
                assert(!(nodes[i as int] is Text));
                return Err(invalid_field(key, "an array of strings"));
            },
        }
        i = i + 1;
    }
    proof {
        assert(all_text(nodes));
        assert(texts(list@) =~= texts_of(nodes));
    }
    Ok(Some(list))
}

/// The `meta` section held by a value.
fn load_meta(value: &toml::Value) -> (result: Result<Meta, RunError>)
    ensures
        match meta_of(value_model(*value)) {
            Some(meta) => result is Ok && result->Ok_0@ == meta,
            None => result is Err && result->Err_0 is Parse,
        },
{
    let table = match value_as_table(value) {
        Some(table) => table,
        None => {
            return Err(invalid_field("meta", "a table"));
        },
    };
    let repo = match required_text_field(table, "repo") {
        Ok(repo) => repo,
        Err(error) => {
            return Err(error);
        },
    };
    let version = match required_text_field(table, "version") {
        Ok(version) => version,
        Err(error) => {
            return Err(error);
        },
    };
    let suffix = match optional_text_field(table, "suffix") {
        Ok(Some(suffix)) => suffix,
        Ok(None) => String::new(),
        Err(error) => {
            return Err(error);
        },
    };
    let checkout = match optional_text_field(table, "checkout") {
        Ok(checkout) => checkout,
        Err(error) => {
            return Err(error);
        },
    };
    let patches = match optional_text_list(table, "patches") {
        Ok(Some(patches)) => patches,
        Ok(None) => Vec::new(),
        Err(error) => {
            return Err(error);
        },
    };
    let meta = Meta { repo, version, suffix, checkout, patches };
    proof {
        assert(meta@.patches =~= meta_of(value_model(*value))->Some_0.patches);
    }
    Ok(meta)
}

/// The checksum rule held by a value.
fn load_rule(value: &toml::Value) -> (result: Result<Checksum, RunError>)
    ensures
        match rule_of(value_model(*value)) {
            Some(rule) => result is Ok && result->Ok_0@ == rule,
            None => result is Err && result->Err_0 is Parse,
        },
{
    let table = match value_as_table(value) {
        Some(table) => table,
        None => {
            return Err(invalid_field("checksums", "an array of tables"));
        },
    };
    let path = match required_text_field(table, "path") {
        Ok(path) => path,
        Err(error) => {
            return Err(error);
        },
    };
    let checksum = match required_text_field(table, "checksum") {
        Ok(checksum) => checksum,
        Err(error) => {
            return Err(error);
        },
    };
    Ok(Checksum { path, checksum })
}

/// The checksum rules of a document.
fn load_rules(table: &toml::Table) -> (result: Result<Vec<Checksum>, RunError>)
    ensures
        match rules_of(table_model(*table)) {
            Some(rules) => result is Ok && rule_views(result->Ok_0@) == rules,
            None => result is Err && result->Err_0 is Parse,
        },
{
    let value = match table_get(table, "checksums") {
        None => {
            let none: Vec<Checksum> = Vec::new();
            assert(rule_views(none@) =~= Seq::<ChecksumView>::empty());
            return Ok(none);
        },
        Some(value) => value,
    };
    let items = match value_as_array(value) {
        None => {
            return Err(invalid_field("checksums", "an array of tables"));
        },
        Some(items) => items,
    };
    let ghost nodes = values_model(items@);
    let mut rules: Vec<Checksum> = Vec::new();
    let mut i: usize = 0;
    while i < items.len()
        invariant
            i <= items.len(),
            rules@.len() == i,
            nodes == values_model(items@),
            table_model(*table).get("checksums"@) == Some(Node::List(nodes)),
            forall|j: int| 0 <= j < i ==> (#[trigger] rule_of(nodes[j])) == Some(rules@[j]@),
        decreases items.len() - i,
    {
        match load_rule(&items[i]) {
            Ok(rule) => {
                rules.push(rule);
            },
            Err(error) => {
                assert(rule_of(nodes[i as int]) is None);
                return Err(error);
            },
        }
        i = i + 1;
    }
    proof {
        assert(rule_views(rules@) =~= rules_of(table_model(*table))->Some_0);
    }
    Ok(rules)
}

/// The build section of a document.
fn load_build(table: &toml::Table) -> (result: Result<Build, RunError>)
    ensures
        match command_of(table_model(*table)) {
            Some(cmd) => result is Ok && result->Ok_0.cmd@ == cmd,
            None => result is Err && result->Err_0 is Parse,
        },
{
    let value = match table_get(table, "build") {
        Some(value) => value,
        None => {
            return Err(missing_field("build"));
        },
    };
    let section = match value_as_table(value) {
        Some(section) => section,
        None => {
            return Err(invalid_field("build", "a table"));
        },
    };
    match required_text_field(section, "cmd") {
        Ok(cmd) => Ok(Build { cmd }),
        Err(error) => Err(error),
    }
}

impl Config {
    /// Takes the package definition out of a parsed document. This fails
    /// with a parse error exactly where a required key is absent or a key of
    /// the definition holds a value of another kind.
    pub fn from_table(table: &toml::Table) -> (result: Result<Config, RunError>)
        ensures
            loads_as(result, config_of(table_model(*table))),
    {
        let meta = match table_get(table, "meta") {
            Some(value) => match load_meta(value) {
                Ok(meta) => meta,
                Err(error) => {
                    return Err(error);
                },
            },
            None => {
                return Err(missing_field("meta"));
            },
        };
        let checksums = match load_rules(table) {
            Ok(checksums) => checksums,
            Err(error) => {
                return Err(error);
            },
        };
        let build = match load_build(table) {
            Ok(build) => build,
            Err(error) => {
                return Err(error);
            },
        };
        Ok(Config { meta, checksums, build })
    }

    /// Reads a package definition from the text of a definition file. This
    /// fails with a parse error exactly where the text is not valid TOML or
    /// its document is no package definition.
    pub fn parse(text: &str) -> (result: Result<Config, RunError>)
        ensures
            loads_as(result, config_of_text(text@)),
    {
        match parse_table(text) {
            Ok(table) => Config::from_table(&table),
            Err(error) => Err(RunError::Parse(syntax_error_text(&error))),
        }
    }
}

} // verus!
