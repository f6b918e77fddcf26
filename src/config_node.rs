use vstd::prelude::*;
use vstd::string::*;

verus! {

/// A node of a configuration document: a scalar, a list, or a table of named
/// children in document order.
pub enum ConfigNode {
    Text(String),
    Integer(i64),
    /// A floating-point scalar, kept as the text it was written with.
    Real(String),
    Boolean(bool),
    List(Vec<ConfigNode>),
    Table(Vec<(String, ConfigNode)>),
    Null,
}

/// The value of the first entry named `key`, if any.
pub open spec fn first_entry(entries: Seq<(String, ConfigNode)>, key: Seq<char>) -> Option<
    ConfigNode,
>
    decreases entries.len(),
{
    if entries.len() == 0 {
        None
    } else if entries[0].0@ == key {
        Some(entries[0].1)
    } else {
        first_entry(entries.drop_first(), key)
    }
}

/// Spec view of an optional child: a missing child reads as `Null`.
pub open spec fn or_null(n: Option<&ConfigNode>) -> ConfigNode {
    match n {
        Some(c) => *c,
        None => ConfigNode::Null,
    }
}

impl ConfigNode {
    /// The child named `key` of a table; `Null` when there is none or when
    /// this node is not a table.
    pub open spec fn at(self, key: Seq<char>) -> ConfigNode {
        match self {
            ConfigNode::Table(entries) => match first_entry(entries@, key) {
                Some(c) => c,
                None => ConfigNode::Null,
            },
            _ => ConfigNode::Null,
        }
    }

    pub open spec fn text(self) -> Option<Seq<char>> {
        match self {
            ConfigNode::Text(s) => Some(s@),
            _ => None,
        }
    }

    pub open spec fn integer(self) -> Option<i64> {
        match self {
            ConfigNode::Integer(i) => Some(i),
            _ => None,
        }
    }

    pub open spec fn boolean(self) -> Option<bool> {
        match self {
            ConfigNode::Boolean(b) => Some(b),
            _ => None,
        }
    }

    /// The items of a list; nothing for any other node.
    pub open spec fn items(self) -> Seq<ConfigNode> {
        match self {
            ConfigNode::List(v) => v@,
            _ => Seq::empty(),
        }
    }

    /// The child named `key`, as [`ConfigNode::at`] describes it.
    pub fn child(&self, key: &str) -> (r: Option<&ConfigNode>)
        ensures
            or_null(r) == self.at(key@),
    {
        match self {
            ConfigNode::Table(entries) => {
                let wanted = String::from_str(key);
                let mut i: usize = 0;
                assert(entries@.skip(0) =~= entries@);
                while i < entries.len()
                    invariant
                        i <= entries@.len(),
                        wanted@ == key@,
                        *self == ConfigNode::Table(*entries),
                        first_entry(entries@, key@) == first_entry(entries@.skip(i as int), key@),
                    decreases entries@.len() - i,
                {
                    proof {
                        assert(entries@.skip(i as int).drop_first() =~= entries@.skip(i + 1));
                        assert(entries@.skip(i as int)[0] == entries@[i as int]);
                    }
                    if entries[i].0 == wanted {
                        return Some(&entries[i].1);
                    }
                    i += 1;
                }
                None
            },
            _ => None,
        }
    }

    pub fn as_text(&self) -> (r: Option<&String>)
        ensures
            match r {
                Some(s) => self.text() == Some(s@),
                None => self.text() is None,
            },
    {
        match self {
            ConfigNode::Text(s) => Some(s),
            _ => None,
        }
    }

    pub fn as_integer(&self) -> (r: Option<i64>)
        ensures
            r == self.integer(),
    {
        match self {
            ConfigNode::Integer(i) => Some(*i),
            _ => None,
        }
    }

    pub fn as_boolean(&self) -> (r: Option<bool>)
        ensures
            r == self.boolean(),
    {
        match self {
            ConfigNode::Boolean(b) => Some(*b),
            _ => None,
        }
    }
}

/// The child `key` of an optional node; missing stays missing.
pub fn child_of<'a>(node: Option<&'a ConfigNode>, key: &str) -> (r: Option<&'a ConfigNode>)
    ensures
        or_null(r) == or_null(node).at(key@),
{
    match node {
        Some(n) => n.child(key),
        None => None,
    }
}

/// The text of an optional node, or `default` where it holds no text.
pub fn text_or(node: Option<&ConfigNode>, default: &str) -> (r: String)
    ensures
        r@ == text_or_default(or_null(node), default@),
{
    match node {
        Some(n) => match n.as_text() {
            Some(s) => s.clone(),
            None => default.to_owned(),
        },
        None => default.to_owned(),
    }
}

pub open spec fn text_or_default(n: ConfigNode, default: Seq<char>) -> Seq<char> {
    match n.text() {
        Some(t) => t,
        None => default,
    }
}

/// The boolean of an optional node, or `default` where it holds none.
pub fn bool_or(node: Option<&ConfigNode>, default: bool) -> (r: bool)
    ensures
        r == match or_null(node).boolean() {
            Some(b) => b,
            None => default,
        },
{
    match node {
        Some(n) => match n.as_boolean() {
            Some(b) => b,
            None => default,
        },
        None => default,
    }
}

/// The integer of an optional node, if it holds one.
pub fn integer_of(node: Option<&ConfigNode>) -> (r: Option<i64>)
    ensures
        r == or_null(node).integer(),
{
    match node {
        Some(n) => n.as_integer(),
        None => None,
    }
}

} // verus!
