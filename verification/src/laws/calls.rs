//! What a request says, and that it says what it was made with.
use vstd::prelude::*;

use crate::wire::{Call, Method, Request, Value, ValueView};

verus! {

/// Whether a call has a text under a name.
pub open spec fn says_text(c: Call, name: Seq<char>, text: Seq<char>) -> bool {
    c.params.contains_key(name) && c.params[name] == ValueView::Text(text)
}

/// Whether a call has a number under a name.
pub open spec fn says_int(c: Call, name: Seq<char>, n: int) -> bool {
    c.params.contains_key(name) && c.params[name] == ValueView::Int(n)
}

/// Whether a call has a value under a name.
pub open spec fn says_value(c: Call, name: Seq<char>, v: ValueView) -> bool {
    c.params.contains_key(name) && c.params[name] == v
}

/// Whether a call names a device to go to, or none.
pub open spec fn goes_to(c: Call, target: Option<Seq<char>>) -> bool {
    match target {
        Some(device) => says_text(c, "targetDeviceId"@, device),
        None => !c.params.contains_key("targetDeviceId"@),
    }
}

/// The names of parameters differ.
pub proof fn names_differ()
    ensures
        "op"@.len() == 2,
        "key"@.len() == 3,
        "cols"@.len() == 4,
        "rows"@.len() == 4,
        "data"@.len() == 4,
        "path"@.len() == 4,
        "name"@.len() == 4,
        "code"@.len() == 4,
        "role"@.len() == 4,
        "port"@.len() == 4,
        "value"@.len() == 5,
        "chatId"@.len() == 6,
        "toolId"@.len() == 6,
        "ranges"@.len() == 6,
        "action"@.len() == 6,
        "source"@.len() == 6,
        "apiKey"@.len() == 6,
        "baseUrl"@.len() == 7,
        "deviceId"@.len() == 8,
        "afterSeq"@.len() == 8,
        "provider"@.len() == 8,
        "endpoint"@.len() == 8,
        "projectId"@.len() == 9,
        "terminalId"@.len() == 10,
        "gitDetected"@.len() == 11,
        "targetDeviceId"@.len() == 14,
        "cols"@ != "rows"@,
        "chatId"@ != "toolId"@,
        "action"@ != "source"@,
        "deviceId"@ != "endpoint"@,
        "name"@ != "role"@,
        "name"@ != "path"@,
{
    reveal_strlit("op");
    reveal_strlit("key");
    reveal_strlit("cols");
    reveal_strlit("rows");
    reveal_strlit("data");
    reveal_strlit("path");
    reveal_strlit("name");
    reveal_strlit("code");
    reveal_strlit("role");
    reveal_strlit("port");
    reveal_strlit("value");
    reveal_strlit("chatId");
    reveal_strlit("toolId");
    reveal_strlit("ranges");
    reveal_strlit("action");
    reveal_strlit("source");
    reveal_strlit("apiKey");
    reveal_strlit("baseUrl");
    reveal_strlit("deviceId");
    reveal_strlit("afterSeq");
    reveal_strlit("provider");
    reveal_strlit("endpoint");
    reveal_strlit("projectId");
    reveal_strlit("terminalId");
    reveal_strlit("gitDetected");
    reveal_strlit("targetDeviceId");
    assert("cols"@[0] != "rows"@[0]);
    assert("chatId"@[0] != "toolId"@[0]);
    assert("action"@[0] != "source"@[0]);
    assert("deviceId"@[0] != "endpoint"@[0]);
    assert("name"@[0] != "role"@[0]);
    assert("name"@[0] != "path"@[0]);
}

/// The operations of the engine that are asked for by name are different ones.
pub proof fn operations_differ()
    ensures
        "markChatSeen"@ != "createChat"@,
        "markChatSeen"@ != "createProject"@,
        "markChatSeen"@ != "renameProject"@,
        "markChatSeen"@ != "deleteProject"@,
        "createChat"@ != "createProject"@,
        "createChat"@ != "renameProject"@,
        "createChat"@ != "deleteProject"@,
        "createProject"@ != "renameProject"@,
        "createProject"@ != "deleteProject"@,
        "renameProject"@ != "deleteProject"@,
{
    reveal_strlit("markChatSeen");
    reveal_strlit("createChat");
    reveal_strlit("createProject");
    reveal_strlit("renameProject");
    reveal_strlit("deleteProject");
    assert("markChatSeen"@.len() == 12 && "createChat"@.len() == 10);
    assert("createProject"@.len() == 13 && "renameProject"@.len() == 13);
    assert("deleteProject"@.len() == 13);
    assert("createProject"@[0] == 'c' && "renameProject"@[0] == 'r' && "deleteProject"@[0] == 'd');
}

/// A request is for the method that it was made for, and begins without
/// parameters.
pub proof fn a_request_begins_empty(
    method: Method,
    r: Request,
    name: &str,
    m: Method,
    v: Option<&Value>,
)
    requires
        call_ensures(Request::new, (method,), r),
        call_ensures(Request::method, (&r,), m),
        call_ensures(Request::param, (&r, name), v),
    ensures
        m == method,
        v is None,
{
}

/// What was put into a request is read back under its name, and the rest of the
/// request is as it was.
pub proof fn a_parameter_reads_back(
    r: Request,
    name: &str,
    value: Value,
    with: Request,
    same: Option<&Value>,
    other: &str,
    before: Option<&Value>,
    after: Option<&Value>,
    m: Method,
    n: Method,
)
    requires
        call_ensures(Request::with, (r, name, value), with),
        call_ensures(Request::param, (&with, name), same),
        other@ != name@,
        call_ensures(Request::param, (&r, other), before),
        call_ensures(Request::param, (&with, other), after),
        call_ensures(Request::method, (&r,), m),
        call_ensures(Request::method, (&with,), n),
    ensures
        same is Some,
        (*same->0)@ == value@,
        n == m,
        before is Some <==> after is Some,
        before is Some ==> (*after->0)@ == (*before->0)@,
{
}

/// A text that was put into a request is read back.
pub proof fn a_text_reads_back(
    r: Request,
    name: &str,
    text: &str,
    with: Request,
    v: Option<&Value>,
)
    requires
        call_ensures(Request::with_text, (r, name, text), with),
        call_ensures(Request::param, (&with, name), v),
    ensures
        v matches Some(value) && *value matches Value::Text(s) && s@ == text@,
{
}

/// A request that is routed names the device; one that is not names none that it
/// did not name before.
pub proof fn a_routed_request_names_its_device(
    r: Request,
    target: &Option<String>,
    routed: Request,
    v: Option<&Value>,
    before: Option<&Value>,
    m: Method,
    n: Method,
    name: &str,
)
    requires
        call_ensures(crate::wire::with_target, (r, target), routed),
        name@ == "targetDeviceId"@,
        call_ensures(Request::param, (&r, name), before),
        call_ensures(Request::param, (&routed, name), v),
        call_ensures(Request::method, (&r,), m),
        call_ensures(Request::method, (&routed,), n),
    ensures
        n == m,
        *target matches Some(device) ==> (v matches Some(value) && *value matches Value::Text(s)
            && s@ == device@),
        *target is None ==> (v is Some <==> before is Some),
{
}

}
