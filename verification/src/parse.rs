use vstd::prelude::*;
use vstd::string::StrSliceExecFns;

use crate::errors::CreateAppError;
use crate::settings::{ConfigModel, CreateAppConfig, Integrations};
use crate::text::str_eq;

verus! {

// The settings document is a line-oriented key-value text: each line is
// blank or `key = value`, a value is a quoted string ('...' or "...",
// no escapes) or a bracketed list of quoted strings. The spec functions
// below define that grammar; the executable parser is proved to follow
// them exactly.
pub open spec fn is_space(c: char) -> bool {
    c == ' ' || c == '\t' || c == '\r'
}

pub open spec fn is_key_char(c: char) -> bool {
    ('a' <= c && c <= 'z') || c == '_'
}

/// Index of the first newline at or after `i`, or the document's length.
pub open spec fn spec_line_end(s: Seq<char>, i: int) -> int
    decreases s.len() - i when 0 <= i <= s.len()
{
    if i >= s.len() {
        s.len() as int
    } else if s[i] == '\n' {
        i
    } else {
        spec_line_end(s, i + 1)
    }
}

pub proof fn lemma_line_end_bounds(s: Seq<char>, i: int)
    requires
        0 <= i <= s.len(),
    ensures
        i <= spec_line_end(s, i) <= s.len(),
    decreases s.len() - i,
{
    if i < s.len() && s[i] != '\n' {
        lemma_line_end_bounds(s, i + 1);
    }
}

/// First index in `[i, j)` holding a non-space character, or `j`.
pub open spec fn spec_skip_spaces(s: Seq<char>, i: int, j: int) -> int
    decreases j - i when 0 <= i <= j
{
    if i >= j {
        j
    } else if is_space(s[i]) {
        spec_skip_spaces(s, i + 1, j)
    } else {
        i
    }
}

pub proof fn lemma_skip_spaces_bounds(s: Seq<char>, i: int, j: int)
    requires
        0 <= i <= j,
    ensures
        i <= spec_skip_spaces(s, i, j) <= j,
    decreases j - i,
{
    if i < j && is_space(s[i]) {
        lemma_skip_spaces_bounds(s, i + 1, j);
    }
}

/// First index in `[i, j)` past a run of key characters.
pub open spec fn spec_key_end(s: Seq<char>, i: int, j: int) -> int
    decreases j - i when 0 <= i <= j
{
    if i >= j {
        j
    } else if is_key_char(s[i]) {
        spec_key_end(s, i + 1, j)
    } else {
        i
    }
}

/// First index of `c` in `[i, j)`, if any.
pub open spec fn spec_find(s: Seq<char>, i: int, j: int, c: char) -> Option<int>
    decreases j - i when 0 <= i <= j
{
    if i >= j {
        None
    } else if s[i] == c {
        Some(i)
    } else {
        spec_find(s, i + 1, j, c)
    }
}

pub proof fn lemma_find_bounds(s: Seq<char>, i: int, j: int, c: char)
    requires
        0 <= i <= j,
    ensures
        spec_find(s, i, j, c) matches Some(k) ==> i <= k < j,
    decreases j - i,
{
    if i < j && s[i] != c {
        lemma_find_bounds(s, i + 1, j, c);
    }
}

/// A parsed right-hand side: a quoted string or a list of them.
pub enum ValueModel {
    Text(Seq<char>),
    List(Seq<Seq<char>>),
}

/// Elements of a list value from the first element position up to the
/// closing bracket; the second component is the index just past `]`.
pub open spec fn spec_parse_items(s: Seq<char>, i: int, j: int) -> Option<(Seq<Seq<char>>, int)>
    decreases j - i when 0 <= i <= j <= s.len() via spec_parse_items_decreases
{
    let a = spec_skip_spaces(s, i, j);
    if a >= j {
        None
    } else if s[a] == ']' {
        Some((Seq::<Seq<char>>::empty(), a + 1))
    } else if s[a] == '\'' || s[a] == '"' {
        match spec_find(s, a + 1, j, s[a]) {
            None => None,
            Some(k) => {
                let item = s.subrange(a + 1, k);
                let b = spec_skip_spaces(s, k + 1, j);
                if b >= j {
                    None
                } else if s[b] == ',' {
                    match spec_parse_items(s, b + 1, j) {
                        None => None,
                        Some((rest, end)) => Some((seq![item] + rest, end)),
                    }
                } else if s[b] == ']' {
                    Some((seq![item], b + 1))
                } else {
                    None
                }
            },
        }
    } else {
        None
    }
}

#[via_fn]
proof fn spec_parse_items_decreases(s: Seq<char>, i: int, j: int) {
    lemma_skip_spaces_bounds(s, i, j);
    let a = spec_skip_spaces(s, i, j);
    if a < j && (s[a] == '\'' || s[a] == '"') {
        lemma_find_bounds(s, a + 1, j, s[a]);
        match spec_find(s, a + 1, j, s[a]) {
            None => {},
            Some(k) => {
                lemma_skip_spaces_bounds(s, k + 1, j);
            },
        }
    }
}

/// A full value between `i` and the line end `j`: leading spaces, then a
/// quoted string or a bracketed list, then spaces only.
pub open spec fn spec_parse_value(s: Seq<char>, i: int, j: int) -> Option<ValueModel> {
    let a = spec_skip_spaces(s, i, j);
    if a >= j {
        None
    } else if s[a] == '\'' || s[a] == '"' {
        match spec_find(s, a + 1, j, s[a]) {
            None => None,
            Some(k) => {
                if spec_skip_spaces(s, k + 1, j) >= j {
                    Some(ValueModel::Text(s.subrange(a + 1, k)))
                } else {
                    None
                }
            },
        }
    } else if s[a] == '[' {
        match spec_parse_items(s, a + 1, j) {
            None => None,
            Some((items, end)) => {
                if spec_skip_spaces(s, end, j) >= j {
                    Some(ValueModel::List(items))
                } else {
                    None
                }
            },
        }
    } else {
        None
    }
}

/// A parsed line: blank, or one `key = value` pair.
pub enum LineModel {
    Blank,
    Pair(Seq<char>, ValueModel),
}

pub open spec fn spec_parse_line(s: Seq<char>, i: int, j: int) -> Option<LineModel> {
    let a = spec_skip_spaces(s, i, j);
    if a >= j {
        Some(LineModel::Blank)
    } else {
        let b = spec_key_end(s, a, j);
        if b == a {
            None
        } else {
            let c = spec_skip_spaces(s, b, j);
            if c < j && s[c] == '=' {
                match spec_parse_value(s, c + 1, j) {
                    Some(v) => Some(LineModel::Pair(s.subrange(a, b), v)),
                    None => None,
                }
            } else {
                None
            }
        }
    }
}

/// The integration token an item of the `integrations` list names.
pub open spec fn spec_integration_of(name: Seq<char>) -> Option<Integrations> {
    if name == "Git"@ {
        Some(Integrations::Git)
    } else if name == "Tailwind"@ {
        Some(Integrations::Tailwind)
    } else {
        None
    }
}

/// The whole `integrations` list, or nothing if any item is unknown.
pub open spec fn spec_integration_list(items: Seq<Seq<char>>) -> Option<Seq<Integrations>> {
    if forall|k: int| 0 <= k < items.len() ==> spec_integration_of(items[k]) is Some {
        Some(Seq::new(items.len(), |k: int| spec_integration_of(items[k]).unwrap()))
    } else {
        None
    }
}

/// A settings document while its lines are being folded in: each field
/// seen at most once so far.
pub struct PartialModel {
    pub app_name: Option<Seq<char>>,
    pub package_manager: Option<Seq<char>>,
    pub packages: Option<Seq<Seq<char>>>,
    pub dev_packages: Option<Seq<Seq<char>>>,
    pub integrations: Option<Seq<Integrations>>,
}

pub open spec fn spec_empty_partial() -> PartialModel {
    PartialModel {
        app_name: None,
        package_manager: None,
        packages: None,
        dev_packages: None,
        integrations: None,
    }
}

/// Fold one `key = value` pair into the document so far. A key must be
/// one of the five known ones, carry a value of the right shape, and
/// not repeat.
pub open spec fn spec_apply_pair(acc: PartialModel, key: Seq<char>, v: ValueModel) -> Option<
    PartialModel,
> {
    if key == "app_name"@ {
        match v {
            ValueModel::Text(t) => {
                if acc.app_name is None {
                    Some(PartialModel { app_name: Some(t), ..acc })
                } else {
                    None
                }
            },
            _ => None,
        }
    } else if key == "package_manager"@ {
        match v {
            ValueModel::Text(t) => {
                if acc.package_manager is None {
                    Some(PartialModel { package_manager: Some(t), ..acc })
                } else {
                    None
                }
            },
            _ => None,
        }
    } else if key == "packages"@ {
        match v {
            ValueModel::List(xs) => {
                if acc.packages is None {
                    Some(PartialModel { packages: Some(xs), ..acc })
                } else {
                    None
                }
            },
            _ => None,
        }
    } else if key == "dev_packages"@ {
        match v {
            ValueModel::List(xs) => {
                if acc.dev_packages is None {
                    Some(PartialModel { dev_packages: Some(xs), ..acc })
                } else {
                    None
                }
            },
            _ => None,
        }
    } else if key == "integrations"@ {
        match v {
            ValueModel::List(xs) => {
                match spec_integration_list(xs) {
                    Some(gs) => {
                        if acc.integrations is None {
                            Some(PartialModel { integrations: Some(gs), ..acc })
                        } else {
                            None
                        }
                    },
                    None => None,
                }
            },
            _ => None,
        }
    } else {
        None
    }
}

/// Fold every line from `i` on into `acc`.
pub open spec fn spec_parse_doc(s: Seq<char>, i: int, acc: PartialModel) -> Option<PartialModel>
    decreases s.len() - i when 0 <= i <= s.len() via spec_parse_doc_decreases
{
    let j = spec_line_end(s, i);
    let step = match spec_parse_line(s, i, j) {
        Some(LineModel::Blank) => Some(acc),
        Some(LineModel::Pair(k, v)) => spec_apply_pair(acc, k, v),
        None => None,
    };
    match step {
        None => None,
        Some(acc2) => {
            if j >= s.len() {
                Some(acc2)
            } else {
                spec_parse_doc(s, j + 1, acc2)
            }
        },
    }
}

#[via_fn]
proof fn spec_parse_doc_decreases(s: Seq<char>, i: int, acc: PartialModel) {
    lemma_line_end_bounds(s, i);
}

/// What a settings document means: its lines folded together, with the
/// two required fields present.
pub open spec fn spec_parse_settings(s: Seq<char>) -> Option<ConfigModel> {
    match spec_parse_doc(s, 0, spec_empty_partial()) {
        None => None,
        Some(p) => match (p.app_name, p.package_manager) {
            (Some(name), Some(pm)) => Some(
                ConfigModel {
                    app_name: name,
                    package_manager: pm,
                    packages: p.packages,
                    dev_packages: p.dev_packages,
                    integrations: p.integrations,
                },
            ),
            _ => None,
        },
    }
}

// ---------------------------------------------------------------------
// Executable parser, proved against the grammar above.
enum SettingValue {
    Text(String),
    List(Vec<String>),
}

impl View for SettingValue {
    type V = ValueModel;

    closed spec fn view(&self) -> ValueModel {
        match self {
            SettingValue::Text(t) => ValueModel::Text(t@),
            SettingValue::List(xs) => ValueModel::List(xs.deep_view()),
        }
    }
}

enum ParsedLine {
    Blank,
    Pair(String, SettingValue),
}

impl View for ParsedLine {
    type V = LineModel;

    closed spec fn view(&self) -> LineModel {
        match self {
            ParsedLine::Blank => LineModel::Blank,
            ParsedLine::Pair(k, v) => LineModel::Pair(k@, v@),
        }
    }
}

struct PartialConfig {
    app_name: Option<String>,
    package_manager: Option<String>,
    packages: Option<Vec<String>>,
    dev_packages: Option<Vec<String>>,
    integrations: Option<Vec<Integrations>>,
}

impl View for PartialConfig {
    type V = PartialModel;

    closed spec fn view(&self) -> PartialModel {
        PartialModel {
            app_name: match self.app_name {
                Some(ref n) => Some(n@),
                None => None,
            },
            package_manager: match self.package_manager {
                Some(ref n) => Some(n@),
                None => None,
            },
            packages: match self.packages {
                Some(ref v) => Some(v.deep_view()),
                None => None,
            },
            dev_packages: match self.dev_packages {
                Some(ref v) => Some(v.deep_view()),
                None => None,
            },
            integrations: match self.integrations {
                Some(ref v) => Some(v@),
                None => None,
            },
        }
    }
}

fn line_end_at(s: &str, n: usize, i: usize) -> (r: usize)
    requires
        n == s@.len(),
        i <= n,
    ensures
        r as int == spec_line_end(s@, i as int),
        i <= r <= n,
    decreases n - i,
{
    if i >= n {
        n
    } else if s.get_char(i) == '\n' {
        i
    } else {
        line_end_at(s, n, i + 1)
    }
}

fn skip_spaces_at(s: &str, n: usize, i: usize, j: usize) -> (r: usize)
    requires
        n == s@.len(),
        i <= j <= n,
    ensures
        r as int == spec_skip_spaces(s@, i as int, j as int),
        i <= r <= j,
    decreases j - i,
{
    if i >= j {
        j
    } else {
        let c = s.get_char(i);
        if c == ' ' || c == '\t' || c == '\r' {
            skip_spaces_at(s, n, i + 1, j)
        } else {
            i
        }
    }
}

fn key_end_at(s: &str, n: usize, i: usize, j: usize) -> (r: usize)
    requires
        n == s@.len(),
        i <= j <= n,
    ensures
        r as int == spec_key_end(s@, i as int, j as int),
        i <= r <= j,
    decreases j - i,
{
    if i >= j {
        j
    } else {
        let c = s.get_char(i);
        if ('a' <= c && c <= 'z') || c == '_' {
            key_end_at(s, n, i + 1, j)
        } else {
            i
        }
    }
}

fn find_at(s: &str, n: usize, i: usize, j: usize, c: char) -> (r: Option<usize>)
    requires
        n == s@.len(),
        i <= j <= n,
    ensures
        match r {
            Some(k) => spec_find(s@, i as int, j as int, c) == Some(k as int) && i <= k < j,
            None => spec_find(s@, i as int, j as int, c) is None,
        },
    decreases j - i,
{
    if i >= j {
        None
    } else if s.get_char(i) == c {
        Some(i)
    } else {
        find_at(s, n, i + 1, j, c)
    }
}

fn parse_items_at(s: &str, n: usize, i: usize, j: usize) -> (r: Option<(Vec<String>, usize)>)
    requires
        n == s@.len(),
        i <= j <= n,
    ensures
        match r {
            Some(p) => spec_parse_items(s@, i as int, j as int) == Some(
                (p.0.deep_view(), p.1 as int),
            ) && i <= p.1 <= j,
            None => spec_parse_items(s@, i as int, j as int) is None,
        },
    decreases j - i,
{
    let a = skip_spaces_at(s, n, i, j);
    if a >= j {
        None
    } else {
        let c = s.get_char(a);
        if c == ']' {
            let items: Vec<String> = Vec::new();
            proof {
                assert(items.deep_view() =~~= Seq::<Seq<char>>::empty());
            }
            Some((items, a + 1))
        } else if c == '\'' || c == '"' {
            match find_at(s, n, a + 1, j, c) {
                None => None,
                Some(k) => {
                    let item = String::from_str(s.substring_char(a + 1, k));
                    let b = skip_spaces_at(s, n, k + 1, j);
                    if b >= j {
                        None
                    } else {
                        let c2 = s.get_char(b);
                        if c2 == ',' {
                            match parse_items_at(s, n, b + 1, j) {
                                None => None,
                                Some((rest, end)) => {
                                    let ghost rest_dv = rest.deep_view();
                                    let ghost item_v = item@;
                                    let mut out = rest;
                                    out.insert(0, item);
                                    proof {
                                        assert(out.deep_view() =~~= seq![item_v] + rest_dv);
                                    }
                                    Some((out, end))
                                },
                            }
                        } else if c2 == ']' {
                            let mut out: Vec<String> = Vec::new();
                            out.push(item);
                            proof {
                                assert(out.deep_view() =~~= seq![s@.subrange(a + 1, k as int)]);
                            }
                            Some((out, b + 1))
                        } else {
                            None
                        }
                    }
                },
            }
        } else {
            None
        }
    }
}

fn parse_value_at(s: &str, n: usize, i: usize, j: usize) -> (r: Option<SettingValue>)
    requires
        n == s@.len(),
        i <= j <= n,
    ensures
        match r {
            Some(v) => spec_parse_value(s@, i as int, j as int) == Some(v@),
            None => spec_parse_value(s@, i as int, j as int) is None,
        },
{
    let a = skip_spaces_at(s, n, i, j);
    if a >= j {
        None
    } else {
        let c = s.get_char(a);
        if c == '\'' || c == '"' {
            match find_at(s, n, a + 1, j, c) {
                None => None,
                Some(k) => {
                    let b = skip_spaces_at(s, n, k + 1, j);
                    if b >= j {
                        Some(SettingValue::Text(String::from_str(s.substring_char(a + 1, k))))
                    } else {
                        None
                    }
                },
            }
        } else if c == '[' {
            match parse_items_at(s, n, a + 1, j) {
                None => None,
                Some((items, end)) => {
                    let b = skip_spaces_at(s, n, end, j);
                    if b >= j {
                        Some(SettingValue::List(items))
                    } else {
                        None
                    }
                },
            }
        } else {
            None
        }
    }
}

fn parse_line_at(s: &str, n: usize, i: usize, j: usize) -> (r: Option<ParsedLine>)
    requires
        n == s@.len(),
        i <= j <= n,
    ensures
        match r {
            Some(l) => spec_parse_line(s@, i as int, j as int) == Some(l@),
            None => spec_parse_line(s@, i as int, j as int) is None,
        },
{
    let a = skip_spaces_at(s, n, i, j);
    if a >= j {
        Some(ParsedLine::Blank)
    } else {
        let b = key_end_at(s, n, a, j);
        if b == a {
            None
        } else {
            let c = skip_spaces_at(s, n, b, j);
            if c < j && s.get_char(c) == '=' {
                match parse_value_at(s, n, c + 1, j) {
                    Some(v) => {
                        let key = String::from_str(s.substring_char(a, b));
                        Some(ParsedLine::Pair(key, v))
                    },
                    None => None,
                }
            } else {
                None
            }
        }
    }
}

fn integration_values(items: &Vec<String>) -> (r: Option<Vec<Integrations>>)
    ensures
        match r {
            Some(gs) => spec_integration_list(items.deep_view()) == Some(gs@),
            None => spec_integration_list(items.deep_view()) is None,
        },
{
    let mut out: Vec<Integrations> = Vec::new();
    let mut idx: usize = 0;
    while idx < items.len()
        invariant
            idx <= items@.len(),
            out@.len() == idx,
            forall|k: int|
                0 <= k < idx ==> spec_integration_of(items.deep_view()[k]) == Some(out@[k]),
        decreases items@.len() - idx,
    {
        let it = &items[idx];
        if str_eq(it.as_str(), "Git") {
            out.push(Integrations::Git);
        } else if str_eq(it.as_str(), "Tailwind") {
            out.push(Integrations::Tailwind);
        } else {
            proof {
                assert(spec_integration_of(items.deep_view()[idx as int]) is None);
            }
            return None;
        }
        idx += 1;
    }
    proof {
        let m = items.deep_view();
        assert(spec_integration_list(m) matches Some(gs) && gs =~= out@) by {
            assert(forall|k: int| 0 <= k < m.len() ==> spec_integration_of(m[k]) is Some);
        }
    }
    Some(out)
}

fn apply_pair(acc: PartialConfig, key: &str, v: SettingValue) -> (r: Option<PartialConfig>)
    ensures
        match r {
            Some(p) => spec_apply_pair(acc@, key@, v@) == Some(p@),
            None => spec_apply_pair(acc@, key@, v@) is None,
        },
{
    if str_eq(key, "app_name") {
        match v {
            SettingValue::Text(t) => {
                if acc.app_name.is_none() {
                    Some(PartialConfig { app_name: Some(t), ..acc })
                } else {
                    None
                }
            },
            _ => None,
        }
    } else if str_eq(key, "package_manager") {
        match v {
            SettingValue::Text(t) => {
                if acc.package_manager.is_none() {
                    Some(PartialConfig { package_manager: Some(t), ..acc })
                } else {
                    None
                }
            },
            _ => None,
        }
    } else if str_eq(key, "packages") {
        match v {
            SettingValue::List(xs) => {
                if acc.packages.is_none() {
                    Some(PartialConfig { packages: Some(xs), ..acc })
                } else {
                    None
                }
            },
            _ => None,
        }
    } else if str_eq(key, "dev_packages") {
        match v {
            SettingValue::List(xs) => {
                if acc.dev_packages.is_none() {
                    Some(PartialConfig { dev_packages: Some(xs), ..acc })
                } else {
                    None
                }
            },
            _ => None,
        }
    } else if str_eq(key, "integrations") {
        match v {
            SettingValue::List(xs) => {
                match integration_values(&xs) {
                    Some(gs) => {
                        if acc.integrations.is_none() {
                            Some(PartialConfig { integrations: Some(gs), ..acc })
                        } else {
                            None
                        }
                    },
                    None => None,
                }
            },
            _ => None,
        }
    } else {
        None
    }
}

fn parse_doc_at(s: &str, n: usize, i: usize, acc: PartialConfig) -> (r: Option<PartialConfig>)
    requires
        n == s@.len(),
        i <= n,
    ensures
        match r {
            Some(p) => spec_parse_doc(s@, i as int, acc@) == Some(p@),
            None => spec_parse_doc(s@, i as int, acc@) is None,
        },
    decreases n - i,
{
    let ghost acc0 = acc@;
    let j = line_end_at(s, n, i);
    let step: Option<PartialConfig> = match parse_line_at(s, n, i, j) {
        None => None,
        Some(ParsedLine::Blank) => Some(acc),
        Some(ParsedLine::Pair(k, v)) => apply_pair(acc, k.as_str(), v),
    };
    match step {
        None => None,
        Some(acc2) => {
            if j >= n {
                Some(acc2)
            } else {
                parse_doc_at(s, n, j + 1, acc2)
            }
        },
    }
}

/// Parse a settings document. Succeeds exactly on the documents the
/// grammar admits, and then returns exactly the document they denote;
/// anything else is a parse failure.
pub fn parse_config(content: &str) -> (r: Result<CreateAppConfig, CreateAppError>)
    ensures
        match r {
            Ok(c) => spec_parse_settings(content@) == Some(c@),
            Err(e) => spec_parse_settings(content@) is None && e == CreateAppError::ParseError,
        },
{
    let n = content.unicode_len();
    let empty = PartialConfig {
        app_name: None,
        package_manager: None,
        packages: None,
        dev_packages: None,
        integrations: None,
    };
    match parse_doc_at(content, n, 0, empty) {
        None => Err(CreateAppError::ParseError),
        Some(p) => {
            let PartialConfig { app_name, package_manager, packages, dev_packages, integrations } =
                p;
            match (app_name, package_manager) {
                (Some(name), Some(pm)) => Ok(
                    CreateAppConfig {
                        app_name: name,
                        package_manager: pm,
                        packages,
                        dev_packages,
                        integrations,
                    },
                ),
                _ => Err(CreateAppError::ParseError),
            }
        },
    }
}

} // verus!
