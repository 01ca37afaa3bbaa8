use vstd::prelude::*;
use crate::message::{role_name, Message, Role};
use crate::store::ConversationStore;

verus! {

/// The JSON string literal of a text: quoted, with its special characters
/// escaped, as serde_json writes it.
pub uninterp spec fn json_string_of(s: Seq<char>) -> Seq<char>;

#[verifier::external_type_specification]
#[verifier::external_body]
pub struct ExJsonError(serde_json::Error);

/// Relies on serde_json::to_string on a `str`: the JSON string literal of the
/// text. A `str` serializes into memory, where writing cannot fail.
#[verifier::external_body]
fn json_string(s: &str) -> (r: Result<String, serde_json::Error>)
    ensures
        r is Ok,
        r->Ok_0@ == json_string_of(s@),
{
    serde_json::to_string(s)
}

/// The JSON object of one message, from its encoded role and content.
pub open spec fn message_object_of(role_json: Seq<char>, content_json: Seq<char>) -> Seq<char> {
    "{\"role\":"@ + role_json + ",\"content\":"@ + content_json + "}"@
}

/// Texts joined with commas between them.
pub open spec fn comma_joined(parts: Seq<Seq<char>>) -> Seq<char>
    decreases parts.len(),
{
    if parts.len() == 0 {
        Seq::empty()
    } else if parts.len() == 1 {
        parts[0]
    } else {
        comma_joined(parts.drop_last()) + ","@ + parts.last()
    }
}

/// The request body, from its encoded model and joined message objects.
pub open spec fn body_of_parts(model_json: Seq<char>, messages_json: Seq<char>, stream: bool) -> Seq<
    char,
> {
    "{\"model\":"@ + model_json + ",\"messages\":["@ + messages_json + "],\"stream\":"@ + (if stream {
        "true"@
    } else {
        "false"@
    }) + "}"@
}

/// The JSON object of each message of a history.
pub open spec fn message_objects(h: Seq<(Role, Seq<char>)>) -> Seq<Seq<char>> {
    h.map_values(
        |m: (Role, Seq<char>)| message_object_of(json_string_of(role_name(m.0)), json_string_of(m.1)),
    )
}

/// The serialized body of a request: `{"model":..,"messages":[..],"stream":..}`.
pub open spec fn body_of(req: (Seq<char>, Seq<(Role, Seq<char>)>, bool)) -> Seq<char> {
    body_of_parts(json_string_of(req.0), comma_joined(message_objects(req.1)), req.2)
}

/// The request for a turn: the model, the whole history in order, streaming on.
pub open spec fn request_of(model: Seq<char>, h: Seq<(Role, Seq<char>)>) -> (
    Seq<char>,
    Seq<(Role, Seq<char>)>,
    bool,
) {
    (model, h, true)
}

/// Two requests built from the same model and the same unchanged history
/// serialize to the same body.
pub proof fn lemma_request_idempotent(
    model: Seq<char>,
    h: Seq<(Role, Seq<char>)>,
    first: (Seq<char>, Seq<(Role, Seq<char>)>, bool),
    second: (Seq<char>, Seq<(Role, Seq<char>)>, bool),
)
    requires
        first == request_of(model, h),
        second == request_of(model, h),
    ensures
        first == second,
        body_of(first) == body_of(second),
{
}

/// A chat completion request. It is built fresh for each turn and not changed.
#[derive(Debug)]
pub struct ChatRequest {
    pub model: String,
    pub messages: Vec<Message>,
    pub stream: bool,
}

impl View for ChatRequest {
    type V = (Seq<char>, Seq<(Role, Seq<char>)>, bool);

    open spec fn view(&self) -> (Seq<char>, Seq<(Role, Seq<char>)>, bool) {
        (self.model@, self.messages@.map_values(|m: Message| m@), self.stream)
    }
}

/// The JSON object of one message, from its encoded role and content.
pub fn message_object(role_json: &str, content_json: &str) -> (r: String)
    ensures
        r@ == message_object_of(role_json@, content_json@),
{
    proof {
        reveal_strlit("{\"role\":");
        reveal_strlit(",\"content\":");
        reveal_strlit("}");
    }
    let mut r = String::from_str("{\"role\":");
    r.append(role_json);
    r.append(",\"content\":");
    r.append(content_json);
    r.append("}");
    r
}

/// The texts joined with commas between them.
pub fn join_with_commas(parts: &Vec<String>) -> (r: String)
    ensures
        r@ == comma_joined(parts@.map_values(|p: String| p@)),
{
    let ghost views = parts@.map_values(|p: String| p@);
    proof { reveal_strlit(","); }
    let mut r = String::new();
    let n = parts.len();
    for i in 0..n
        invariant
            n == parts@.len(),
            views == parts@.map_values(|p: String| p@),
            r@ == comma_joined(views.take(i as int)),
    {
        assert(views.take(i + 1).drop_last() =~= views.take(i as int));
        if i > 0 {
            r.append(",");
        } else {
            assert(r@ =~= Seq::<char>::empty());
        }
        r.append(parts[i].as_str());
        assert(views.take(i + 1).last() == parts@[i as int]@);
        assert(r@ =~= comma_joined(views.take(i + 1)));
    }
    assert(views.take(n as int) =~= views);
    r
}

/// The request body, from its encoded model and joined message objects.
pub fn body_from_parts(model_json: &str, messages_json: &str, stream: bool) -> (r: String)
    ensures
        r@ == body_of_parts(model_json@, messages_json@, stream),
{
    proof {
        reveal_strlit("{\"model\":");
        reveal_strlit(",\"messages\":[");
        reveal_strlit("],\"stream\":");
        reveal_strlit("true");
        reveal_strlit("false");
        reveal_strlit("}");
    }
    let mut r = String::from_str("{\"model\":");
    r.append(model_json);
    r.append(",\"messages\":[");
    r.append(messages_json);
    r.append("],\"stream\":");
    if stream {
        r.append("true");
    } else {
        r.append("false");
    }
    r.append("}");
    r
}

/// Encodes a text as a JSON string literal.
fn encode(s: &str) -> (r: String)
    ensures
        r@ == json_string_of(s@),
{
    match json_string(s) {
        Ok(t) => t,
        Err(_) => {
            proof { assert(false); }
            String::new()
        },
    }
}

impl ChatRequest {
    /// The request for the next turn: the model, a copy of the whole history
    /// in conversation order, and streaming on.
    pub fn from_store(model: &String, store: &ConversationStore) -> (r: ChatRequest)
        ensures
            r@ == request_of(model@, store@),
    {
        let messages = store.snapshot();
        ChatRequest { model: model.clone(), messages, stream: true }
    }

    /// The JSON body of the request.
    pub fn to_body(&self) -> (r: String)
        ensures
            r@ == body_of(self@),
    {
        let ghost h = self@.1;
        let mut objects: Vec<String> = Vec::new();
        let n = self.messages.len();
        for i in 0..n
            invariant
                n == self.messages@.len(),
                h == self@.1,
                objects@.len() == i,
                forall|j: int|
                    0 <= j < i ==> #[trigger] objects@[j]@ == message_objects(h)[j],
        {
            let m = &self.messages[i];
            let role_json = encode(m.role.as_str());
            let content_json = encode(m.content.as_str());
            objects.push(message_object(role_json.as_str(), content_json.as_str()));
        }
        assert(objects@.map_values(|p: String| p@) =~= message_objects(h));
        let messages_json = join_with_commas(&objects);
        let model_json = encode(self.model.as_str());
        body_from_parts(model_json.as_str(), messages_json.as_str(), self.stream)
    }
}

} // verus!
