use vstd::prelude::*;

use crate::text::{bool_text, bool_text_spec, decimal, decimal_text, signed_decimal, signed_decimal_text};

verus! {

/// The `name=value` text of a recorded field.
pub open spec fn field_text(field: (Seq<char>, Seq<char>)) -> Seq<char> {
    field.0 + "="@ + field.1
}

/// The texts of `fields`, in order, separated by single spaces.
pub open spec fn joined_fields(fields: Seq<(Seq<char>, Seq<char>)>) -> Seq<char>
    decreases fields.len(),
{
    if fields.len() == 0 {
        Seq::empty()
    } else if fields.len() == 1 {
        field_text(fields[0])
    } else {
        joined_fields(fields.drop_last()) + " "@ + field_text(fields.last())
    }
}

/// The text of a log event: its message, or its name where the message is
/// empty, followed by a space and its other fields where it has any.
pub open spec fn composed_message(
    event_name: Seq<char>,
    message: Seq<char>,
    fields: Seq<(Seq<char>, Seq<char>)>,
) -> Seq<char> {
    let base = if message.len() == 0 {
        event_name
    } else {
        message
    };
    if fields.len() == 0 {
        base
    } else {
        base + " "@ + joined_fields(fields)
    }
}

/// The text of a log event: with no other fields it is just the message (or,
/// where the message is empty, the event name); with fields it is that text,
/// a space, and every field as `name=value`, the fields in the order recorded
/// and separated by single spaces. In particular one field `(k, v)` gives
/// the base text followed by ` k=v`, and each further field adds ` k=v` at the end.
pub proof fn lemma_composed_message_lists_every_field(
    event_name: Seq<char>,
    message: Seq<char>,
    fields: Seq<(Seq<char>, Seq<char>)>,
    name: Seq<char>,
    value: Seq<char>,
)
    ensures
        ({
            let base = if message.len() == 0 {
                event_name
            } else {
                message
            };
            &&& composed_message(event_name, message, Seq::empty()) == base
            &&& composed_message(event_name, message, seq![(name, value)]) == base + " "@
                + name + "="@ + value
            &&& fields.len() > 0 ==> composed_message(
                event_name,
                message,
                fields.push((name, value)),
            ) == composed_message(event_name, message, fields) + " "@ + name + "="@ + value
        }),
{
    let one = seq![(name, value)];
    assert(one.len() == 1);
    assert(one[0] == (name, value));
    if fields.len() > 0 {
        let more = fields.push((name, value));
        assert(more.drop_last() =~= fields);
        assert(more.last() == (name, value));
    }
}

/// What a message visitor has recorded, as mathematical values.
pub struct MessageVisitorView {
    /// The text of the field named `message`, empty until one is recorded.
    pub message: Seq<char>,
    /// The other fields, as name and value texts, in the order recorded.
    pub fields: Seq<(Seq<char>, Seq<char>)>,
}

/// Collects the fields of one log event: the field named `message` apart,
/// the others as `name=value` pairs.
pub struct MessageVisitor {
    message: String,
    fields: Vec<(String, String)>,
}

impl View for MessageVisitor {
    type V = MessageVisitorView;

    closed spec fn view(&self) -> MessageVisitorView {
        MessageVisitorView {
            message: self.message@,
            fields: self.fields@.map_values(|f: (String, String)| (f.0@, f.1@)),
        }
    }
}

/// Whether `name` is the name of the message field.
fn is_message_field(name: &str) -> (b: bool)
    ensures
        b == (name@ == "message"@),
{
    name.to_owned() == "message".to_owned()
}

impl MessageVisitor {
    /// A visitor that has recorded nothing.
    pub fn new() -> (v: MessageVisitor)
        ensures
            v@.message == Seq::<char>::empty(),
            v@.fields == Seq::<(Seq<char>, Seq<char>)>::empty(),
    {
        let v = MessageVisitor { message: String::new(), fields: Vec::new() };
        assert(v@.fields =~= Seq::<(Seq<char>, Seq<char>)>::empty());
        v
    }

    /// Adds a field other than the message after those recorded.
    fn push_field(&mut self, name: &str, value: String)
        ensures
            final(self)@.message == old(self)@.message,
            final(self)@.fields == old(self)@.fields.push((name@, value@)),
    {
        let ghost v = value@;
        self.fields.push((name.to_owned(), value));
        assert(self@.fields =~= old(self)@.fields.push((name@, v)));
    }

    /// Records a text field: the message where `field_name` is `message`,
    /// another field otherwise.
    pub fn record_str(&mut self, field_name: &str, value: &str)
        ensures
            field_name@ == "message"@ ==> final(self)@ == (MessageVisitorView {
                message: value@,
                ..old(self)@
            }),
            field_name@ != "message"@ ==> final(self)@ == (MessageVisitorView {
                fields: old(self)@.fields.push((field_name@, value@)),
                ..old(self)@
            }),
    {
        if is_message_field(field_name) {
            self.message = value.to_owned();
        } else {
            self.push_field(field_name, value.to_owned());
        }
    }

    /// Records a field given by its debug rendering `rendered`: the message
    /// where `field_name` is `message`, another field otherwise.
    pub fn record_debug(&mut self, field_name: &str, rendered: String)
        ensures
            field_name@ == "message"@ ==> final(self)@ == (MessageVisitorView {
                message: rendered@,
                ..old(self)@
            }),
            field_name@ != "message"@ ==> final(self)@ == (MessageVisitorView {
                fields: old(self)@.fields.push((field_name@, rendered@)),
                ..old(self)@
            }),
    {
        if is_message_field(field_name) {
            self.message = rendered;
        } else {
            self.push_field(field_name, rendered);
        }
    }

    /// Records a signed integer field in decimal; a field named `message` is ignored.
    pub fn record_i64(&mut self, field_name: &str, value: i64)
        ensures
            field_name@ == "message"@ ==> final(self)@ == old(self)@,
            field_name@ != "message"@ ==> final(self)@ == (MessageVisitorView {
                fields: old(self)@.fields.push((field_name@, signed_decimal(value as int))),
                ..old(self)@
            }),
    {
        if !is_message_field(field_name) {
            self.push_field(field_name, signed_decimal_text(value));
        }
    }

    /// Records an unsigned integer field in decimal; a field named `message` is ignored.
    pub fn record_u64(&mut self, field_name: &str, value: u64)
        ensures
            field_name@ == "message"@ ==> final(self)@ == old(self)@,
            field_name@ != "message"@ ==> final(self)@ == (MessageVisitorView {
                fields: old(self)@.fields.push((field_name@, decimal(value as nat))),
                ..old(self)@
            }),
    {
        if !is_message_field(field_name) {
            self.push_field(field_name, decimal_text(value));
        }
    }

    /// Records a truth-value field as `true` or `false`; a field named `message` is ignored.
    pub fn record_bool(&mut self, field_name: &str, value: bool)
        ensures
            field_name@ == "message"@ ==> final(self)@ == old(self)@,
            field_name@ != "message"@ ==> final(self)@ == (MessageVisitorView {
                fields: old(self)@.fields.push((field_name@, bool_text_spec(value))),
                ..old(self)@
            }),
    {
        if !is_message_field(field_name) {
            self.push_field(field_name, bool_text(value));
        }
    }

    /// The text logged for an event named `event_name` with the fields recorded.
    pub fn final_message(&self, event_name: &str) -> (s: String)
        ensures
            s@ == composed_message(event_name@, self@.message, self@.fields),
    {
        let mut out: String = if self.message.as_str().is_empty() {
            event_name.to_owned()
        } else {
            self.message.clone()
        };
        let n: usize = self.fields.len();
        if n > 0 {
            let ghost fields = self@.fields;
            let mut joined: String = String::new();
            let mut i: usize = 0;
            assert(fields.take(0) =~= Seq::<(Seq<char>, Seq<char>)>::empty());
            while i < n
                invariant
                    0 <= i <= n,
                    n == self.fields@.len(),
                    fields == self@.fields,
                    joined@ == joined_fields(fields.take(i as int)),
                decreases n - i,
            {
                let ghost before = joined@;
                if i > 0 {
                    joined.append(" ");
                }
                joined.append(self.fields[i].0.as_str());
                joined.append("=");
                joined.append(self.fields[i].1.as_str());
                proof {
                    let f = fields[i as int];
                    assert(f == (self.fields@[i as int].0@, self.fields@[i as int].1@));
                    let next = fields.take(i + 1);
                    assert(next.drop_last() =~= fields.take(i as int));
                    assert(next.last() == f);
                    if i == 0 {
                        assert(joined@ =~= field_text(f));
                    } else {
                        assert(joined@ =~= before + " "@ + field_text(f));
                    }
                }
                i = i + 1;
            }
            assert(fields.take(n as int) =~= fields);
            out.append(" ");
            out.append(joined.as_str());
        }
        out
    }
}

} // verus!
