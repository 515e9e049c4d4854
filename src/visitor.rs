//! Collects the fields of a log event as embed fields, keeping the event's
//! message apart.
use vstd::prelude::*;

use crate::text::push_str;

verus! {

/// Whether two strings hold the same characters.
pub fn same_text(a: &str, b: &str) -> (r: bool)
    ensures
        r == (a@ == b@),
{
    let n = a.unicode_len();
    if n != b.unicode_len() {
        return false;
    }
    let mut i: usize = 0;
    while i < n
        invariant
            n == a@.len() == b@.len(),
            0 <= i <= n,
            a@.take(i as int) == b@.take(i as int),
        decreases n - i,
    {
        if a.get_char(i) != b.get_char(i) {
            assert(a@[i as int] != b@[i as int]);
            return false;
        }
        proof {
            assert(a@.take(i + 1) =~= a@.take(i as int).push(a@[i as int]));
            assert(b@.take(i + 1) =~= b@.take(i as int).push(b@[i as int]));
        }
        i = i + 1;
    }
    proof {
        assert(a@.take(n as int) =~= a@);
        assert(b@.take(n as int) =~= b@);
    }
    true
}

/// The event's message, and its other fields as (name, value, inline).
#[derive(Debug)]
pub struct EmbedFieldVisitor {
    pub message: Option<String>,
    pub fields: Vec<(String, String, bool)>,
    /// Put in front of every field name.
    pub field_name_prefix: Option<String>,
}

pub open spec fn prefix_text(p: Option<String>) -> Seq<char> {
    match p {
        Some(s) => s@,
        None => Seq::empty(),
    }
}

/// `v` gained one field named `name` (after the prefix) holding `value`,
/// shown inline; nothing else changed.
pub open spec fn field_added(
    pre: EmbedFieldVisitor,
    post: EmbedFieldVisitor,
    name: Seq<char>,
    value: Seq<char>,
) -> bool {
    &&& post.fields@.len() == pre.fields@.len() + 1
    &&& post.fields@.drop_last() == pre.fields@
    &&& post.fields@.last().0@ == prefix_text(pre.field_name_prefix) + name
    &&& post.fields@.last().1@ == value
    &&& post.fields@.last().2
    &&& post.message == pre.message
    &&& post.field_name_prefix == pre.field_name_prefix
}

impl EmbedFieldVisitor {
    /// No message, no fields, no prefix.
    pub fn new() -> (r: Self)
        ensures
            r.message is None,
            r.fields@ == Seq::<(String, String, bool)>::empty(),
            r.field_name_prefix is None,
    {
        EmbedFieldVisitor { message: None, fields: Vec::new(), field_name_prefix: None }
    }

    fn add_field(&mut self, name: &str, value: String)
        ensures
            field_added(*old(self), *final(self), name@, value@),
    {
        let mut full = match &self.field_name_prefix {
            Some(p) => p.clone(),
            None => String::new(),
        };
        push_str(&mut full, name);
        self.fields.push((full, value, true));
        proof {
            assert(self.fields@.drop_last() =~= old(self).fields@);
        }
    }

    /// Records a field given as text.
    pub fn record_value(&mut self, name: &str, value: String)
        ensures
            field_added(*old(self), *final(self), name@, value@),
    {
        self.add_field(name, value);
    }

    /// Records a field given in its debug form; the one named `message` is
    /// the event's message.
    pub fn record_debug(&mut self, name: &str, value: String)
        ensures
            name@ == "message"@ ==> final(self).message == Some(value) && final(self).fields
                == old(self).fields && final(self).field_name_prefix == old(
                self,
            ).field_name_prefix,
            name@ != "message"@ ==> field_added(*old(self), *final(self), name@, value@),
    {
        if same_text(name, "message") {
            self.message = Some(value);
        } else {
            self.add_field(name, value);
        }
    }
}

} // verus!
