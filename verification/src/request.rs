//! Describing the request to send for a prompt: where it goes, the headers
//! it carries, and its JSON body in the configured layout.

use crate::config::{ApiVariant, Options};
use crate::json::{pairs_of, views_of, Json, JsonValue, Member, MemberValue, lookup_from};
use vstd::prelude::*;
use vstd::string::StringExecFns;

verus! {

/// One HTTP header.
#[derive(Debug)]
pub struct Header {
    pub name: String,
    pub value: String,
}

impl View for Header {
    type V = (Seq<char>, Seq<char>);

    open spec fn view(&self) -> (Seq<char>, Seq<char>) {
        (self.name@, self.value@)
    }
}

/// A request to be sent with the POST method.
#[derive(Debug)]
pub struct Request {
    pub url: String,
    pub headers: Vec<Header>,
    pub body: Json,
}

/// The decimal digit for a number below ten.
pub open spec fn digit(d: nat) -> char {
    if d == 0 {
        '0'
    } else if d == 1 {
        '1'
    } else if d == 2 {
        '2'
    } else if d == 3 {
        '3'
    } else if d == 4 {
        '4'
    } else if d == 5 {
        '5'
    } else if d == 6 {
        '6'
    } else if d == 7 {
        '7'
    } else if d == 8 {
        '8'
    } else {
        '9'
    }
}

/// A natural number written in decimal, without leading zeros.
pub open spec fn decimal(n: nat) -> Seq<char>
    decreases n,
{
    if n < 10 {
        seq![digit(n)]
    } else {
        decimal(n / 10).push(digit(n % 10))
    }
}

/// The text of one decimal digit.
fn digit_text(d: usize) -> (text: &'static str)
    requires
        d < 10,
    ensures
        text@ == seq![digit(d as nat)],
{
    proof {
        reveal_strlit("0");
        reveal_strlit("1");
        reveal_strlit("2");
        reveal_strlit("3");
        reveal_strlit("4");
        reveal_strlit("5");
        reveal_strlit("6");
        reveal_strlit("7");
        reveal_strlit("8");
        reveal_strlit("9");
    }
    let text = if d == 0 {
        "0"
    } else if d == 1 {
        "1"
    } else if d == 2 {
        "2"
    } else if d == 3 {
        "3"
    } else if d == 4 {
        "4"
    } else if d == 5 {
        "5"
    } else if d == 6 {
        "6"
    } else if d == 7 {
        "7"
    } else if d == 8 {
        "8"
    } else {
        "9"
    };
    assert(text@ =~= seq![digit(d as nat)]);
    text
}

/// Writes a number in decimal.
pub fn decimal_string(n: usize) -> (text: String)
    ensures
        text@ == decimal(n as nat),
    decreases n,
{
    if n < 10 {
        String::from_str(digit_text(n))
    } else {
        let last = digit_text(n % 10);
        let text = decimal_string(n / 10).concat(last);
        assert(text@ =~= decimal((n / 10) as nat).push(digit((n % 10) as nat)));
        text
    }
}

/// The path that a layout's requests go to, below the endpoint.
pub open spec fn variant_path(variant: ApiVariant) -> Seq<char> {
    match variant {
        ApiVariant::ChatCompletions => "/v1/chat/completions"@,
        ApiVariant::Responses => "/v1/responses"@,
    }
}

/// The name under which a layout takes the output budget.
pub open spec fn budget_key(variant: ApiVariant) -> Seq<char> {
    match variant {
        ApiVariant::ChatCompletions => "max_completion_tokens"@,
        ApiVariant::Responses => "max_output_tokens"@,
    }
}

/// The headers of every request: the bearer credential, the content type
/// and the client's name.
pub open spec fn request_headers(secret: Seq<char>) -> Seq<(Seq<char>, Seq<char>)> {
    seq![
        ("Authorization"@, "Bearer "@ + secret),
        ("content-type"@, "application/json"@),
        ("user-agent"@, "asimov-openai-module"@),
    ]
}

/// The single chat message that carries a prompt: the user's, as plain text.
pub open spec fn user_message(input: Seq<char>) -> JsonValue {
    JsonValue::Object(
        seq![
            MemberValue { name: "role"@, value: JsonValue::Text("user"@) },
            MemberValue { name: "content"@, value: JsonValue::Text(input) },
        ],
    )
}

/// The member that places a prompt in the body: a message list of one entry
/// in the chat layout, a flat field in the structured one.
pub open spec fn input_member(variant: ApiVariant, input: Seq<char>) -> MemberValue {
    match variant {
        ApiVariant::ChatCompletions => MemberValue {
            name: "messages"@,
            value: JsonValue::Array(seq![user_message(input)]),
        },
        ApiVariant::Responses => MemberValue { name: "input"@, value: JsonValue::Text(input) },
    }
}

/// The body of a request: the model, the prompt, and the output budget
/// where one is configured. It holds nothing else.
pub open spec fn request_body(
    variant: ApiVariant,
    model: Seq<char>,
    input: Seq<char>,
    budget: Option<usize>,
) -> JsonValue {
    let fixed = seq![
        MemberValue { name: "model"@, value: JsonValue::Text(model) },
        input_member(variant, input),
    ];
    match budget {
        Some(limit) => JsonValue::Object(
            fixed.push(
                MemberValue {
                    name: budget_key(variant),
                    value: JsonValue::Number(decimal(limit as nat)),
                },
            ),
        ),
        None => JsonValue::Object(fixed),
    }
}

/// The model that a request body asks for.
pub open spec fn body_model(body: JsonValue) -> Option<Seq<char>> {
    body.text_at("model"@)
}

/// The prompt that a request body carries, read where the layout puts it.
pub open spec fn body_input(variant: ApiVariant, body: JsonValue) -> Option<Seq<char>> {
    match variant {
        ApiVariant::ChatCompletions => match body.items_at("messages"@) {
            Some(messages) => if messages.len() == 1 {
                messages[0].text_at("content"@)
            } else {
                None
            },
            None => None,
        },
        ApiVariant::Responses => body.text_at("input"@),
    }
}

/// A request body, handed back as it was built, still names the configured
/// model and carries the prompt, both unchanged.
pub proof fn lemma_body_keeps_model_and_input(
    variant: ApiVariant,
    model: Seq<char>,
    input: Seq<char>,
    budget: Option<usize>,
)
    ensures
        body_model(request_body(variant, model, input, budget)) == Some(model),
        body_input(variant, request_body(variant, model, input, budget)) == Some(input),
{
    reveal_with_fuel(lookup_from, 3);
    reveal_strlit("model");
    reveal_strlit("messages");
    reveal_strlit("input");
    reveal_strlit("role");
    reveal_strlit("content");
    assert("model"@ != "messages"@) by {
        assert("model"@.len() == 5 && "messages"@.len() == 8);
    }
    assert("model"@ != "input"@) by {
        assert("model"@[0] != "input"@[0]);
    }
    assert("role"@ != "content"@) by {
        assert("role"@.len() == 4 && "content"@.len() == 7);
    }
    let body = request_body(variant, model, input, budget);
    let members = body->Object_0;
    assert(members[0].name == "model"@);
    assert(members[1] == input_member(variant, input));
    match variant {
        ApiVariant::ChatCompletions => {
            let messages = seq![user_message(input)];
            assert(body.items_at("messages"@) == Some(messages));
            assert(messages[0] == user_message(input));
            let parts = user_message(input)->Object_0;
            assert(parts[1].name == "content"@);
        },
        ApiVariant::Responses => {},
    }
}

/// Builds the JSON body of a request.
pub fn build_body(variant: ApiVariant, model: &str, input: &str, budget: Option<usize>) -> (body:
    Json)
    ensures
        body@ == request_body(variant, model@, input@, budget),
{
    let mut members: Vec<Member> = Vec::new();
    members.push(Member::new("model", Json::text(model)));
    match variant {
        ApiVariant::ChatCompletions => {
            let mut parts: Vec<Member> = Vec::new();
            parts.push(Member::new("role", Json::text("user")));
            parts.push(Member::new("content", Json::text(input)));
            let message = Json::object(parts);
            assert(message@ == user_message(input@)) by {
                assert(pairs_of(parts@) =~= user_message(input@)->Object_0);
            }
            let mut messages: Vec<Json> = Vec::new();
            messages.push(message);
            let list = Json::array(messages);
            assert(views_of(messages@) =~= seq![user_message(input@)]);
            members.push(Member::new("messages", list));
        },
        ApiVariant::Responses => {
            members.push(Member::new("input", Json::text(input)));
        },
    }
    assert(members@[1]@ == input_member(variant, input@));
    match budget {
        Some(limit) => {
            let key = match variant {
                ApiVariant::ChatCompletions => "max_completion_tokens",
                ApiVariant::Responses => "max_output_tokens",
            };
            members.push(Member::new(key, Json::Number(decimal_string(limit))));
        },
        None => {},
    }
    let body = Json::object(members);
    assert(pairs_of(members@) =~= request_body(variant, model@, input@, budget)->Object_0);
    body
}

/// Describes the request for a prompt: the endpoint followed by the
/// layout's path, the three fixed headers, and the body. The credential
/// appears in the `Authorization` header and nowhere else.
pub fn build_request(input: &str, options: &Options) -> (request: Request)
    ensures
        request.url@ == options.endpoint@ + variant_path(options.variant),
        Seq::new(request.headers@.len(), |i: int| request.headers@[i]@) == request_headers(
            options.api_key@,
        ),
        request.body@ == request_body(
            options.variant,
            options.model@,
            input@,
            options.max_tokens,
        ),
{
    let path = match options.variant {
        ApiVariant::ChatCompletions => "/v1/chat/completions",
        ApiVariant::Responses => "/v1/responses",
    };
    let url = options.endpoint.clone().concat(path);
    let mut headers: Vec<Header> = Vec::new();
    headers.push(
        Header {
            name: String::from_str("Authorization"),
            value: String::from_str("Bearer ").concat(options.api_key.expose()),
        },
    );
    headers.push(
        Header {
            name: String::from_str("content-type"),
            value: String::from_str("application/json"),
        },
    );
    headers.push(
        Header {
            name: String::from_str("user-agent"),
            value: String::from_str("asimov-openai-module"),
        },
    );
    assert(Seq::new(headers@.len(), |i: int| headers@[i]@) =~= request_headers(options.api_key@));
    let body = build_body(
        options.variant,
        options.model.as_str(),
        input,
        options.max_tokens,
    );
    Request { url, headers, body }
}

} // verus!
