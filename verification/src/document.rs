//! A configuration document as a tree of tables, arrays and plain values, and
//! the reading of a TOML text into such a tree by the `toml` crate.

use vstd::prelude::*;
use vstd::string::*;
use crate::text::chars_of;

verus! {

/// One value of a configuration document.
#[derive(Debug, PartialEq, Eq)]
pub enum Node {
    /// A string.
    Str(String),
    /// An integer.
    Int(i64),
    /// A floating-point number; the engine reads none, so the number is left out.
    Float,
    /// A boolean.
    Bool(bool),
    /// A date or a time; the engine reads none, so it is left out.
    Datetime,
    /// An array, in the document's order.
    Array(Vec<Node>),
    /// A table, as its keys and values in the order in which the table is walked.
    Table(Vec<(String, Node)>),
}

/// The value under `key` in the first of `entries`, from `from` on, that
/// carries that key.
pub open spec fn entry_from(entries: Seq<(String, Node)>, key: Seq<char>, from: int) -> Option<Node>
    decreases entries.len() - from,
{
    if from < 0 || from >= entries.len() {
        None
    } else if entries[from].0@ == key {
        Some(entries[from].1)
    } else {
        entry_from(entries, key, from + 1)
    }
}

/// The text of a string that may be absent.
pub open spec fn opt_text(s: Option<String>) -> Option<Seq<char>> {
    match s {
        Some(t) => Some(t@),
        None => None,
    }
}

impl Node {
    /// The value under `key`, if this is a table that holds the key.
    pub open spec fn entry(self, key: Seq<char>) -> Option<Node> {
        match self {
            Node::Table(entries) => entry_from(entries@, key, 0),
            _ => None,
        }
    }

    /// The text of this value where an optional string is expected: `Some` of
    /// the outcome, or `None` if the value is no string.
    pub open spec fn text_under(self, key: Seq<char>) -> Option<Option<Seq<char>>> {
        match self.entry(key) {
            None => Some(None),
            Some(Node::Str(s)) => Some(Some(s@)),
            Some(_) => None,
        }
    }

    /// The integer under `key` where an optional integer is expected: `Some`
    /// of the outcome, or `None` if the value is no integer.
    pub open spec fn integer_under(self, key: Seq<char>) -> Option<Option<i64>> {
        match self.entry(key) {
            None => Some(None),
            Some(Node::Int(i)) => Some(Some(i)),
            Some(_) => None,
        }
    }

    /// The value under `key`, if this is a table that holds the key.
    pub fn get(&self, key: &str) -> (r: Option<&Node>)
        ensures
            match r {
                Some(node) => self.entry(key@) == Some(*node),
                None => self.entry(key@) is None,
            },
    {
        match self {
            Node::Table(entries) => {
                let wanted: String = key.to_string();
                let mut i: usize = 0;
                while i < entries.len()
                    invariant
                        0 <= i <= entries@.len(),
                        wanted@ == key@,
                        self.entry(key@) == entry_from(entries@, key@, i as int),
                    decreases entries@.len() - i,
                {
                    if entries[i].0 == wanted {
                        return Some(&entries[i].1);
                    }
                    i = i + 1;
                }
                None
            },
            _ => None,
        }
    }

    /// The string, if this is one.
    pub fn as_str(&self) -> (r: Option<&String>)
        ensures
            match *self {
                Node::Str(s) => r == Some(&s),
                _ => r is None,
            },
    {
        match self {
            Node::Str(s) => Some(s),
            _ => None,
        }
    }

    /// The integer, if this is one.
    pub fn as_integer(&self) -> (r: Option<i64>)
        ensures
            match *self {
                Node::Int(i) => r == Some(i),
                _ => r is None,
            },
    {
        match self {
            Node::Int(i) => Some(*i),
            _ => None,
        }
    }

    /// The boolean, if this is one.
    pub fn as_bool(&self) -> (r: Option<bool>)
        ensures
            match *self {
                Node::Bool(b) => r == Some(b),
                _ => r is None,
            },
    {
        match self {
            Node::Bool(b) => Some(*b),
            _ => None,
        }
    }

    /// The items, if this is an array.
    pub fn as_array(&self) -> (r: Option<&Vec<Node>>)
        ensures
            match *self {
                Node::Array(items) => r == Some(&items),
                _ => r is None,
            },
    {
        match self {
            Node::Array(items) => Some(items),
            _ => None,
        }
    }

    /// The entries, if this is a table.
    pub fn as_table(&self) -> (r: Option<&Vec<(String, Node)>>)
        ensures
            match *self {
                Node::Table(entries) => r == Some(&entries),
                _ => r is None,
            },
    {
        match self {
            Node::Table(entries) => Some(entries),
            _ => None,
        }
    }

    /// The string under `key`, which may be absent but must be a string.
    pub fn opt_str(&self, key: &str) -> (r: Option<Option<String>>)
        ensures
            match r {
                Some(s) => self.text_under(key@) == Some(opt_text(s)),
                None => self.text_under(key@) is None,
            },
    {
        match self.get(key) {
            None => Some(None),
            Some(node) => match node {
                Node::Str(s) => Some(Some(s.clone())),
                _ => None,
            },
        }
    }

    /// The integer under `key`, which may be absent but must be an integer.
    pub fn opt_integer(&self, key: &str) -> (r: Option<Option<i64>>)
        ensures
            r == self.integer_under(key@),
    {
        match self.get(key) {
            None => Some(None),
            Some(node) => match node {
                Node::Int(i) => Some(Some(*i)),
                _ => None,
            },
        }
    }
}

#[verifier::external_type_specification]
#[verifier::external_body]
pub struct ExValue(toml::Value);

/// The tree that a TOML value stands for: strings, integers and booleans with
/// what they hold, arrays with their items in order, tables with their keys
/// and values in the order in which the table is walked.
pub uninterp spec fn node_of(value: toml::Value) -> Node;

/// How deep the values of a TOML value lie in one another: one for a plain
/// value, and one more than its deepest item or entry for an array or table.
pub uninterp spec fn depth_of(value: toml::Value) -> nat;

/// The tree that a text stands for when it is read as a TOML document, or
/// `None` if the text is no TOML document.
pub uninterp spec fn document_of(text: Seq<char>) -> Option<Node>;

/// Where a scan stands in the line: in a string, in a comment, or in neither.
#[derive(Clone, Copy, Debug, PartialEq, Eq, Structural)]
pub enum Lexed {
    /// Outside strings and comments.
    Outside,
    /// In a string between `"`, behind a `\` or not.
    Basic { escaped: bool },
    /// In a string between `'`.
    Literal,
    /// In a comment, which runs to the end of the line.
    Comment,
}

/// What a scan of a text has counted so far.
pub struct Scan {
    /// Where the scan stands in the line.
    pub lexed: Lexed,
    /// How many brackets are open: a `[` or `{` outside strings and comments
    /// opens one, a `]` or `}` there closes one.
    pub open: nat,
    /// How many `.` have stood outside strings and comments since the last
    /// end of a line at which no bracket was open.
    pub dots: nat,
    /// The most that `open` and `dots` have come to together.
    pub most: nat,
    /// How many `"` stand directly before this place.
    pub doubles: nat,
    /// How many `'` stand directly before this place.
    pub singles: nat,
    /// Whether three quotes of one kind have stood in a row, so that a string
    /// may run over several lines. From there on the scan takes every
    /// character as standing outside strings, and lets nothing go.
    pub tripled: bool,
}

/// The scan before the first character.
pub open spec fn scan_start() -> Scan {
    Scan {
        lexed: Lexed::Outside,
        open: 0,
        dots: 0,
        most: 0,
        doubles: 0,
        singles: 0,
        tripled: false,
    }
}

/// Where the scan stands behind the character `c`, in a text without three
/// quotes in a row. A string ends with its line at the latest.
pub open spec fn lexed_step(lexed: Lexed, c: char) -> Lexed {
    if c == '\n' {
        Lexed::Outside
    } else {
        match lexed {
            Lexed::Comment => Lexed::Comment,
            Lexed::Basic { escaped } => if escaped {
                Lexed::Basic { escaped: false }
            } else if c == '\\' {
                Lexed::Basic { escaped: true }
            } else if c == '"' {
                Lexed::Outside
            } else {
                lexed
            },
            Lexed::Literal => if c == '\'' {
                Lexed::Outside
            } else {
                lexed
            },
            Lexed::Outside => if c == '"' {
                Lexed::Basic { escaped: false }
            } else if c == '\'' {
                Lexed::Literal
            } else if c == '#' {
                Lexed::Comment
            } else {
                lexed
            },
        }
    }
}

/// The scan after one more character `c`.
pub open spec fn scan_step(s: Scan, c: char) -> Scan {
    let doubles: nat = if c == '"' {
        s.doubles + 1
    } else {
        0
    };
    let singles: nat = if c == '\'' {
        s.singles + 1
    } else {
        0
    };
    let tripled = s.tripled || doubles >= 3 || singles >= 3;
    let counts = tripled || s.lexed is Outside;
    let open: nat = if counts && (c == '[' || c == '{') {
        s.open + 1
    } else if !tripled && s.lexed is Outside && (c == ']' || c == '}') && s.open > 0 {
        (s.open - 1) as nat
    } else {
        s.open
    };
    let dots: nat = if counts && c == '.' {
        s.dots + 1
    } else if !tripled && c == '\n' && s.open == 0 {
        0
    } else {
        s.dots
    };
    Scan {
        lexed: lexed_step(s.lexed, c),
        open,
        dots,
        most: if open + dots > s.most {
            open + dots
        } else {
            s.most
        },
        doubles,
        singles,
        tripled,
    }
}

/// The scan of the first `n` characters of `text`.
pub open spec fn scan(text: Seq<char>, n: int) -> Scan
    decreases n,
{
    if n <= 0 || n > text.len() {
        scan_start()
    } else {
        scan_step(scan(text, n - 1), text[n - 1])
    }
}

/// A bound on how deep the values of a document lie in one another. A value
/// lies one deeper for every part of a dotted key or of a table header above
/// it, and for every array or inline table around it. A header stands in one
/// line and gives at most two levels for each of its parts; a key with its
/// value ends where a line ends with no bracket open. So three times what the
/// scan has counted at most, and one, bounds the depth.
pub open spec fn depth_bound(text: Seq<char>) -> nat {
    3 * (scan(text, text.len() as int).most + 1)
}

/// The deepest that a document may be for it to be read.
pub const DEPTH_LIMIT: usize = 128;

/// The tree that `text` is read as: that of the document it stands for, if
/// its depth is within the limit.
pub open spec fn document_read(text: Seq<char>) -> Option<Node> {
    if depth_bound(text) <= DEPTH_LIMIT {
        document_of(text)
    } else {
        None
    }
}

/// Where the scan stands behind the character `c`.
pub fn lex(lexed: Lexed, c: char) -> (r: Lexed)
    ensures
        r == lexed_step(lexed, c),
{
    if c == '\n' {
        return Lexed::Outside;
    }
    match lexed {
        Lexed::Comment => Lexed::Comment,
        Lexed::Basic { escaped } => {
            if escaped {
                Lexed::Basic { escaped: false }
            } else if c == '\\' {
                Lexed::Basic { escaped: true }
            } else if c == '"' {
                Lexed::Outside
            } else {
                lexed
            }
        },
        Lexed::Literal => {
            if c == '\'' {
                Lexed::Outside
            } else {
                lexed
            }
        },
        Lexed::Outside => {
            if c == '"' {
                Lexed::Basic { escaped: false }
            } else if c == '\'' {
                Lexed::Literal
            } else if c == '#' {
                Lexed::Comment
            } else {
                lexed
            }
        },
    }
}

/// Whether the depth of `text` is within the limit.
pub fn shallow(text: &str) -> (r: bool)
    ensures
        r == (depth_bound(text@) <= DEPTH_LIMIT),
{
    let chars: Vec<char> = chars_of(text);
    let n: usize = chars.len();
    let mut lexed: Lexed = Lexed::Outside;
    let mut open: usize = 0;
    let mut dots: usize = 0;
    let mut most: usize = 0;
    let mut doubles: usize = 0;
    let mut singles: usize = 0;
    let mut tripled: bool = false;
    let mut i: usize = 0;
    while i < n
        invariant
            n == chars@.len(),
            0 <= i <= n,
            open + dots <= i,
            most <= i,
            doubles <= i,
            singles <= i,
            scan(chars@, i as int) == (Scan {
                lexed,
                open: open as nat,
                dots: dots as nat,
                most: most as nat,
                doubles: doubles as nat,
                singles: singles as nat,
                tripled,
            }),
        decreases n - i,
    {
        let c: char = chars[i];
        let outside: bool = match lexed {
            Lexed::Outside => true,
            _ => false,
        };
        doubles = if c == '"' {
            doubles + 1
        } else {
            0
        };
        singles = if c == '\'' {
            singles + 1
        } else {
            0
        };
        let was_open: usize = open;
        tripled = tripled || doubles >= 3 || singles >= 3;
        let counts: bool = tripled || outside;
        if counts && (c == '[' || c == '{') {
            open = open + 1;
        } else if !tripled && outside && (c == ']' || c == '}') && open > 0 {
            open = open - 1;
        }
        if counts && c == '.' {
            dots = dots + 1;
        } else if !tripled && c == '\n' && was_open == 0 {
            dots = 0;
        }
        if open + dots > most {
            most = open + dots;
        }
        lexed = lex(lexed, c);
        i = i + 1;
    }
    most <= 41
}

/// Calls `str::parse::<toml::Value>`, that is `toml::Value::from_str`.
///
/// Trusted: that whether the text is accepted, and the value that comes out,
/// depend on the text alone; `document_of` names both.
///
/// The crate's parser calls itself for every array and inline table that lies
/// in another, and its readers of tables call themselves for every part of a
/// dotted key or header, without a limit of their own, so that a text that is
/// nested deeply enough ends the process. `requires` leaves out the texts
/// that `depth_bound` does not hold within the limit. That the bound is one
/// rests on how the crate reads a text: a `"`, `'` or `#` outside strings and
/// comments always starts a string or a comment; a string that does not start
/// with three quotes ends in its line, and so does a comment; brackets and
/// `.` inside them open and part nothing. Where three quotes stand in a row
/// the scan gives up telling strings from the rest and counts everything.
/// The value that comes out is then no deeper than the bound either.
#[verifier::external_body]
pub(crate) fn parse_value(text: &str) -> (r: Option<toml::Value>)
    requires
        depth_bound(text@) <= DEPTH_LIMIT,
    ensures
        match r {
            Some(value) => document_of(text@) == Some(node_of(value)) && depth_of(value)
                <= depth_bound(text@),
            None => document_of(text@) is None,
        },
{
    text.parse::<toml::Value>().ok()
}

/// Copies a `toml::Value` into a tree, one variant for one, table entries in
/// the order of `toml::map::Map::iter`.
///
/// Trusted: that the copy is the tree that `node_of` names. The copying calls
/// itself once for every level of the value; `requires` leaves out the values
/// that are deeper than the limit.
#[verifier::external_body]
pub(crate) fn node_from(value: &toml::Value) -> (r: Node)
    requires
        depth_of(*value) <= DEPTH_LIMIT,
    ensures
        r == node_of(*value),
{
    match value {
        toml::Value::String(s) => Node::Str(s.clone()),
        toml::Value::Integer(i) => Node::Int(*i),
        toml::Value::Float(_) => Node::Float,
        toml::Value::Boolean(b) => Node::Bool(*b),
        toml::Value::Datetime(_) => Node::Datetime,
        toml::Value::Array(items) => Node::Array(items.iter().map(node_from).collect()),
        toml::Value::Table(table) => Node::Table(
            table.iter().map(|(k, v)| (k.clone(), node_from(v))).collect(),
        ),
    }
}

/// Reads `text` as a TOML document. A text whose depth is beyond the limit
/// is not read at all.
pub fn parse_document(text: &str) -> (r: Option<Node>)
    ensures
        r == document_read(text@),
{
    if !shallow(text) {
        return None;
    }
    match parse_value(text) {
        Some(value) => Some(node_from(&value)),
        None => None,
    }
}

} // verus!
