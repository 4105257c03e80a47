use vstd::prelude::*;

use crate::json::{render_json, render_json_string, Json, JsonV};
use crate::text::{chars_to_string, push_chars};

verus! {

/// A message field of the bulk endpoints, as the wire may shape it: one
/// string, a list of strings, or any other JSON value kept as its rendered
/// text.
pub enum ZBMessage {
    Single(String),
    Multiple(Vec<String>),
    Unexpected(String),
}

pub enum ZBMessageV {
    Single(Seq<char>),
    Multiple(Seq<Seq<char>>),
    Unexpected(Seq<char>),
}

impl View for ZBMessage {
    type V = ZBMessageV;

    open spec fn view(&self) -> ZBMessageV {
        match self {
            ZBMessage::Single(t) => ZBMessageV::Single(t@),
            ZBMessage::Multiple(parts) => ZBMessageV::Multiple(
                Seq::new(parts@.len(), |i: int| parts@[i]@),
            ),
            ZBMessage::Unexpected(t) => ZBMessageV::Unexpected(t@),
        }
    }
}

/// The text a list element contributes: its characters for a string,
/// empty text for anything else.
pub open spec fn element_text(v: JsonV) -> Seq<char> {
    match v {
        JsonV::Str(t) => t,
        _ => Seq::empty(),
    }
}

/// What the lenient decoder makes of a message value: a string becomes the
/// single message, an array becomes the list of its elements' texts, and
/// any other shape is kept whole as its rendered text.
pub open spec fn message_of(v: JsonV) -> ZBMessageV {
    match v {
        JsonV::Str(t) => ZBMessageV::Single(t),
        JsonV::Arr(items) => ZBMessageV::Multiple(
            Seq::new(items.len(), |i: int| element_text(items[i])),
        ),
        _ => ZBMessageV::Unexpected(render_json(v)),
    }
}

pub open spec fn join_newline(parts: Seq<Seq<char>>) -> Seq<char>
    decreases parts.len(),
{
    if parts.len() == 0 {
        Seq::empty()
    } else if parts.len() == 1 {
        parts[0]
    } else {
        join_newline(parts.drop_last()) + seq!['\n'] + parts.last()
    }
}

/// The single display text of a message: the text itself, the list joined
/// with newlines, or the rendered fallback verbatim.
pub open spec fn flattened_of(m: ZBMessageV) -> Seq<char> {
    match m {
        ZBMessageV::Single(t) => t,
        ZBMessageV::Multiple(parts) => join_newline(parts),
        ZBMessageV::Unexpected(t) => t,
    }
}

/// Decodes a message value of unknown shape. This never fails: a shape
/// that is neither a string nor an array is itself a meaningful outcome.
pub fn message_from_json(j: &Json) -> (r: ZBMessage)
    ensures
        r@ == message_of(j@),
{
    match j {
        Json::Str(s) => ZBMessage::Single(s.clone()),
        Json::Arr(items) => {
            let ghost vs = j@->Arr_0;
            let mut parts: Vec<String> = Vec::new();
            let mut i: usize = 0;
            while i < items.len()
                invariant
                    0 <= i <= items@.len(),
                    *j == Json::Arr(*items),
                    vs == j@->Arr_0,
                    vs.len() == items@.len(),
                    forall|k: int|
                        0 <= k < items@.len() ==> vs[k] == crate::json::json_view(items@[k]),
                    parts@.len() == i,
                    forall|k: int| 0 <= k < i ==> #[trigger] parts@[k]@ == element_text(vs[k]),
                decreases items@.len() - i,
            {
                let part = match &items[i] {
                    Json::Str(t) => t.clone(),
                    _ => String::new(),
                };
                parts.push(part);
                i += 1;
            }
            proof {
                assert(Seq::new(parts@.len(), |k: int| parts@[k]@) =~= Seq::new(
                    vs.len(),
                    |k: int| element_text(vs[k]),
                ));
            }
            ZBMessage::Multiple(parts)
        },
        _ => ZBMessage::Unexpected(render_json_string(j)),
    }
}

impl ZBMessage {
    /// Collapses the message to one display string: identity for a single
    /// message, newline-joined for a list, and the rendered JSON text
    /// verbatim for anything else.
    pub fn flattened(&self) -> (r: String)
        ensures
            r@ == flattened_of(self@),
    {
        match self {
            ZBMessage::Single(t) => t.clone(),
            ZBMessage::Unexpected(t) => t.clone(),
            ZBMessage::Multiple(parts) => {
                let ghost ps = self@->Multiple_0;
                let mut out: Vec<char> = Vec::new();
                let mut i: usize = 0;
                while i < parts.len()
                    invariant
                        0 <= i <= parts@.len(),
                        self matches ZBMessage::Multiple(q) && q == parts,
                        ps == self@->Multiple_0,
                        ps.len() == parts@.len(),
                        forall|k: int| 0 <= k < parts@.len() ==> ps[k] == #[trigger] parts@[k]@,
                        out@ == join_newline(ps.subrange(0, i as int)),
                    decreases parts@.len() - i,
                {
                    if i > 0 {
                        out.push('\n');
                    }
                    let part_chars = crate::text::str_to_chars(parts[i].as_str());
                    push_chars(&mut out, &part_chars);
                    i += 1;
                    proof {
                        let pre = ps.subrange(0, i - 1);
                        let cur = ps.subrange(0, i as int);
                        assert(cur.drop_last() =~= pre);
                        assert(cur.last() == ps[i - 1]);
                        assert(out@ =~= join_newline(cur));
                    }
                }
                proof {
                    assert(ps.subrange(0, ps.len() as int) =~= ps);
                }
                chars_to_string(&out)
            },
        }
    }
}

/// The decoder sorts every JSON shape into exactly one of the three
/// message variants: a string becomes the single message with the same
/// text, an array becomes the list of its elements' texts in order, and
/// every other shape becomes the fallback carrying its rendered text.
pub proof fn lemma_message_decoder_shapes(v: JsonV)
    ensures
        v matches JsonV::Str(t) ==> message_of(v) == ZBMessageV::Single(t),
        v matches JsonV::Arr(items) ==> message_of(v) == ZBMessageV::Multiple(
            Seq::new(items.len(), |i: int| element_text(items[i])),
        ),
        !(v is Str) && !(v is Arr) ==> message_of(v) == ZBMessageV::Unexpected(render_json(v)),
{
}

} // verus!
