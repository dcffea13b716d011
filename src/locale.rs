//! Supported locales, translation tables and the resolver that looks a
//! dotted key up in them, with fallback to English and then to the key.
use vstd::prelude::*;
use vstd::string::*;
use crate::json::{json_string_at, json_strings, table_from_json};
use crate::text::{same_text, split_at_dots, split_dots, views};

verus! {

/// A locale the interface is translated into.
#[derive(Clone, Copy, Debug, PartialEq, Eq, Structural)]
pub enum Locale {
    En,
    De,
    Fr,
    Tr,
}

/// The two-letter code of a locale.
pub open spec fn locale_code(l: Locale) -> Seq<char> {
    match l {
        Locale::En => seq!['e', 'n'],
        Locale::De => seq!['d', 'e'],
        Locale::Fr => seq!['f', 'r'],
        Locale::Tr => seq!['t', 'r'],
    }
}

/// The locale whose code is `s`, if any.
pub open spec fn locale_named(s: Seq<char>) -> Option<Locale> {
    if s == locale_code(Locale::En) {
        Some(Locale::En)
    } else if s == locale_code(Locale::De) {
        Some(Locale::De)
    } else if s == locale_code(Locale::Fr) {
        Some(Locale::Fr)
    } else if s == locale_code(Locale::Tr) {
        Some(Locale::Tr)
    } else {
        None
    }
}

/// The locale whose code is `s`, English for any other string.
pub open spec fn locale_or_default(s: Seq<char>) -> Locale {
    match locale_named(s) {
        Some(l) => l,
        None => Locale::En,
    }
}

impl Locale {
    /// The locale with the given code, `None` for an unsupported one.
    pub fn from_code(code: &str) -> (r: Option<Locale>)
        ensures
            r == locale_named(code@),
    {
        proof {
            reveal_strlit("en");
            reveal_strlit("de");
            reveal_strlit("fr");
            reveal_strlit("tr");
        }
        assert("en"@ =~= locale_code(Locale::En));
        assert("de"@ =~= locale_code(Locale::De));
        assert("fr"@ =~= locale_code(Locale::Fr));
        assert("tr"@ =~= locale_code(Locale::Tr));
        if same_text(code, "en") {
            Some(Locale::En)
        } else if same_text(code, "de") {
            Some(Locale::De)
        } else if same_text(code, "fr") {
            Some(Locale::Fr)
        } else if same_text(code, "tr") {
            Some(Locale::Tr)
        } else {
            None
        }
    }

    /// The two-letter code of this locale.
    pub fn code(&self) -> (r: String)
        ensures
            r@ == locale_code(*self),
    {
        proof {
            reveal_strlit("en");
            reveal_strlit("de");
            reveal_strlit("fr");
            reveal_strlit("tr");
        }
        let r = match self {
            Locale::En => String::from_str("en"),
            Locale::De => String::from_str("de"),
            Locale::Fr => String::from_str("fr"),
            Locale::Tr => String::from_str("tr"),
        };
        assert(r@ =~= locale_code(*self));
        r
    }
}

/// A node of a translation table: a string, a mapping from names to nodes,
/// or anything else (which no key resolves to).
pub enum TableNode {
    Text(String),
    Branch(Vec<(String, TableNode)>),
    Other,
}

/// The node under the first member of `entries` named `name`.
pub open spec fn member(entries: Seq<(String, TableNode)>, name: Seq<char>) -> Option<TableNode>
    decreases entries.len(),
{
    if entries.len() == 0 {
        None
    } else if entries[0].0@ == name {
        Some(entries[0].1)
    } else {
        member(entries.drop_first(), name)
    }
}

/// The string reached from `node` by following the names of `path`, if
/// every step finds a member and the last one is a string.
pub open spec fn lookup(node: TableNode, path: Seq<Seq<char>>) -> Option<Seq<char>>
    decreases path.len(),
{
    if path.len() == 0 {
        match node {
            TableNode::Text(s) => Some(s@),
            _ => None,
        }
    } else {
        match node {
            TableNode::Branch(entries) => match member(entries@, path[0]) {
                Some(child) => lookup(child, path.drop_first()),
                None => None,
            },
            _ => None,
        }
    }
}

/// Finds the first member of `entries` named `name`.
fn find_member<'a>(entries: &'a Vec<(String, TableNode)>, name: &String) -> (r: Option<&'a TableNode>)
    ensures
        match r {
            Some(n) => member(entries@, name@) == Some(*n),
            None => member(entries@, name@) is None,
        },
{
    let mut j: usize = 0;
    assert(entries@.subrange(0, entries@.len() as int) =~= entries@);
    while j < entries.len()
        invariant
            j <= entries@.len(),
            member(entries@, name@) == member(entries@.subrange(j as int, entries@.len() as int), name@),
        decreases entries.len() - j,
    {
        let ghost rest = entries@.subrange(j as int, entries@.len() as int);
        assert(rest.drop_first() =~= entries@.subrange(j + 1, entries@.len() as int));
        if entries[j].0 == *name {
            return Some(&entries[j].1);
        }
        j = j + 1;
    }
    None
}

/// Follows `path` from `node`.
fn lookup_path(node: &TableNode, path: &Vec<String>) -> (r: Option<String>)
    ensures
        match r {
            Some(s) => lookup(*node, views(path@)) == Some(s@),
            None => lookup(*node, views(path@)) is None,
        },
{
    let mut cur: &TableNode = node;
    let mut k: usize = 0;
    assert(views(path@).subrange(0, path@.len() as int) =~= views(path@));
    while k < path.len()
        invariant
            k <= path@.len(),
            lookup(*node, views(path@)) == lookup(*cur, views(path@).subrange(k as int, path@.len() as int)),
        decreases path.len() - k,
    {
        let ghost rest = views(path@).subrange(k as int, path@.len() as int);
        assert(rest.drop_first() =~= views(path@).subrange(k + 1, path@.len() as int));
        assert(rest[0] == path@[k as int]@);
        match cur {
            TableNode::Branch(entries) => {
                match find_member(entries, &path[k]) {
                    Some(child) => {
                        cur = child;
                    },
                    None => {
                        return None;
                    },
                }
            },
            _ => {
                return None;
            },
        }
        k = k + 1;
    }
    assert(views(path@).subrange(k as int, path@.len() as int) =~= Seq::<Seq<char>>::empty());
    match cur {
        TableNode::Text(s) => Some(s.clone()),
        _ => None,
    }
}

/// The translation tables of the supported locales; a locale whose table
/// could not be read has none.
pub struct Catalog {
    pub en: Option<TableNode>,
    pub de: Option<TableNode>,
    pub fr: Option<TableNode>,
    pub tr: Option<TableNode>,
}

impl Catalog {
    /// The table of locale `l`.
    pub open spec fn table(&self, l: Locale) -> Option<TableNode> {
        match l {
            Locale::En => self.en,
            Locale::De => self.de,
            Locale::Fr => self.fr,
            Locale::Tr => self.tr,
        }
    }

    /// A catalog of the given tables.
    pub fn new(en: Option<TableNode>, de: Option<TableNode>, fr: Option<TableNode>, tr: Option<TableNode>) -> (r: Catalog)
        ensures
            r.table(Locale::En) == en,
            r.table(Locale::De) == de,
            r.table(Locale::Fr) == fr,
            r.table(Locale::Tr) == tr,
    {
        Catalog { en, de, fr, tr }
    }

    /// A catalog read from the JSON text of each locale's table; a text that
    /// is not JSON leaves its locale without a table, and every key path
    /// leads in a table to the string it leads to in that table's text.
    pub fn from_sources(en: &str, de: &str, fr: &str, tr: &str) -> (r: Catalog)
        ensures
            r.table(Locale::En) is Some == json_strings(en@) is Some,
            r.table(Locale::En) matches Some(t) ==> forall|p: Seq<Seq<char>>| #[trigger] lookup(t, p) == json_string_at(en@, p),
            r.table(Locale::De) is Some == json_strings(de@) is Some,
            r.table(Locale::De) matches Some(t) ==> forall|p: Seq<Seq<char>>| #[trigger] lookup(t, p) == json_string_at(de@, p),
            r.table(Locale::Fr) is Some == json_strings(fr@) is Some,
            r.table(Locale::Fr) matches Some(t) ==> forall|p: Seq<Seq<char>>| #[trigger] lookup(t, p) == json_string_at(fr@, p),
            r.table(Locale::Tr) is Some == json_strings(tr@) is Some,
            r.table(Locale::Tr) matches Some(t) ==> forall|p: Seq<Seq<char>>| #[trigger] lookup(t, p) == json_string_at(tr@, p),
    {
        Catalog {
            en: table_from_json(en),
            de: table_from_json(de),
            fr: table_from_json(fr),
            tr: table_from_json(tr),
        }
    }

    /// The table of the locale named `locale`, English's for an unknown name.
    pub fn get_locale_table(&self, locale: &str) -> (r: &Option<TableNode>)
        ensures
            *r == self.table(locale_or_default(locale@)),
    {
        match Locale::from_code(locale) {
            Some(Locale::De) => &self.de,
            Some(Locale::Fr) => &self.fr,
            Some(Locale::Tr) => &self.tr,
            _ => &self.en,
        }
    }
}

/// The string at `path` in the table of `l`, if it has a table and the path
/// leads to a string there.
pub open spec fn found(cat: Catalog, l: Locale, path: Seq<Seq<char>>) -> Option<Seq<char>> {
    match cat.table(l) {
        Some(t) => lookup(t, path),
        None => None,
    }
}

/// What the dotted `key` resolves to in locale `l`: its string in `l`'s
/// table, else its string in the English table, else the key itself.
pub open spec fn resolve(cat: Catalog, l: Locale, key: Seq<char>) -> Seq<char> {
    let path = split_dots(key);
    match found(cat, l, path) {
        Some(s) => s,
        None => match found(cat, Locale::En, path) {
            Some(s) => s,
            None => key,
        },
    }
}

/// Follows `path` in an optional table.
fn found_in(table: &Option<TableNode>, path: &Vec<String>) -> (r: Option<String>)
    ensures
        match r {
            Some(s) => match *table {
                Some(t) => lookup(t, views(path@)) == Some(s@),
                None => false,
            },
            None => match *table {
                Some(t) => lookup(t, views(path@)) is None,
                None => true,
            },
        },
{
    match table {
        Some(t) => lookup_path(t, path),
        None => None,
    }
}

/// What the dotted `key` resolves to in locale `l`: its string in `l`'s
/// table, else its string in the English table, else `fallback`.
pub open spec fn resolve_or(cat: Catalog, l: Locale, key: Seq<char>, fallback: Seq<char>) -> Seq<char> {
    let path = split_dots(key);
    match found(cat, l, path) {
        Some(s) => s,
        None => match found(cat, Locale::En, path) {
            Some(s) => s,
            None => fallback,
        },
    }
}

/// The display string for the dotted `key` in locale `locale`, falling
/// back to English and then to `fallback`.
pub fn translate_or(catalog: &Catalog, locale: Locale, key: &str, fallback: &str) -> (r: String)
    ensures
        r@ == resolve_or(*catalog, locale, key@, fallback@),
{
    let path = split_at_dots(key);
    let table = match locale {
        Locale::En => &catalog.en,
        Locale::De => &catalog.de,
        Locale::Fr => &catalog.fr,
        Locale::Tr => &catalog.tr,
    };
    match found_in(table, &path) {
        Some(s) => s,
        None => match found_in(&catalog.en, &path) {
            Some(s) => s,
            None => String::from_str(fallback),
        },
    }
}

/// The display string for the dotted `key` in locale `locale`, falling
/// back to English and then to the key itself.
pub fn translate(catalog: &Catalog, locale: Locale, key: &str) -> (r: String)
    ensures
        r@ == resolve(*catalog, locale, key@),
{
    translate_or(catalog, locale, key, key)
}

/// The display string for the dotted `key` in the locale named `locale`
/// (English for an unknown name), falling back to English and then to the
/// key itself. It never fails.
pub fn get_translation(catalog: &Catalog, locale: &str, key: &str) -> (r: String)
    ensures
        r@ == resolve(*catalog, locale_or_default(locale@), key@),
{
    let l = match Locale::from_code(locale) {
        Some(l) => l,
        None => Locale::En,
    };
    translate(catalog, l, key)
}

/// A table that could not be read leaves its locale resolving every key
/// exactly as English does.
pub proof fn lemma_unreadable_table_falls_back(cat: Catalog, l: Locale, key: Seq<char>)
    requires
        cat.table(l) is None,
    ensures
        resolve(cat, l, key) == resolve(cat, Locale::En, key),
{
}

/// A non-empty key that every readable table holds as a non-empty string
/// resolves to a non-empty string in every locale, and to the locale's own
/// string wherever the locale has a table.
pub proof fn lemma_present_key_resolves(cat: Catalog, l: Locale, key: Seq<char>)
    requires
        key.len() > 0,
        forall|m: Locale| #[trigger] cat.table(m) is Some ==> {
            &&& found(cat, m, split_dots(key)) is Some
            &&& found(cat, m, split_dots(key))->Some_0.len() > 0
        },
    ensures
        resolve(cat, l, key).len() > 0,
        cat.table(l) is Some ==> resolve(cat, l, key) == found(cat, l, split_dots(key))->Some_0,
{
    assert(cat.table(l) is Some ==> found(cat, l, split_dots(key)) is Some);
    assert(cat.table(Locale::En) is Some ==> found(cat, Locale::En, split_dots(key)) is Some);
}

/// The key of the display label of a correction style; an unknown style
/// reads as "grammar".
pub open spec fn style_key(style: Seq<char>) -> Seq<char> {
    if style == "formal"@ {
        "home.styleOptions.formal.label"@
    } else if style == "informal"@ {
        "home.styleOptions.informal.label"@
    } else if style == "collaborative"@ {
        "home.styleOptions.collaborative.label"@
    } else if style == "concise"@ {
        "home.styleOptions.concise.label"@
    } else {
        "home.styleOptions.grammar.label"@
    }
}

/// The key of the display label of `style`.
pub fn style_label_key(style: &str) -> (r: &'static str)
    ensures
        r@ == style_key(style@),
{
    if same_text(style, "formal") {
        "home.styleOptions.formal.label"
    } else if same_text(style, "informal") {
        "home.styleOptions.informal.label"
    } else if same_text(style, "collaborative") {
        "home.styleOptions.collaborative.label"
    } else if same_text(style, "concise") {
        "home.styleOptions.concise.label"
    } else {
        "home.styleOptions.grammar.label"
    }
}

/// The display label of a correction style in the locale named `locale`.
pub fn style_to_label(catalog: &Catalog, style: &str, locale: &str) -> (r: String)
    ensures
        r@ == resolve(*catalog, locale_or_default(locale@), style_key(style@)),
{
    get_translation(catalog, locale, style_label_key(style))
}

} // verus!
