//! Requests to the engine, as values: a method and its named parameters.
use vstd::prelude::*;

use crate::keyed::Keyed;

verus! {

/// A parameter.
#[derive(Debug, Clone, PartialEq, Eq)]
pub enum Value {
    Null,
    Bool(bool),
    Int(u64),
    Text(String),
    List(Vec<String>),
}

/// What a parameter holds.
pub ghost enum ValueView {
    Null,
    Bool(bool),
    Int(int),
    Text(Seq<char>),
    List(Seq<Seq<char>>),
}

/// The texts of a list.
pub open spec fn texts(v: Seq<String>) -> Seq<Seq<char>> {
    v.map_values(|s: String| s@)
}

impl View for Value {
    type V = ValueView;

    open spec fn view(&self) -> ValueView {
        match self {
            Value::Null => ValueView::Null,
            Value::Bool(b) => ValueView::Bool(*b),
            Value::Int(n) => ValueView::Int(*n as int),
            Value::Text(s) => ValueView::Text(s@),
            Value::List(v) => ValueView::List(texts(v@)),
        }
    }
}

/// The named parameters of a call.
pub open spec fn params_view(m: Map<Seq<char>, Value>) -> Map<Seq<char>, ValueView> {
    m.map_values(|v: Value| v@)
}

/// The methods of the engine that the app calls or subscribes to.
#[derive(Debug, Clone, Copy, PartialEq, Eq, Structural)]
pub enum Method {
    CloseTerminal,
    CollaborationControl,
    GetPiSettings,
    ListFolders,
    LocalDevice,
    Mutate,
    NovaBeginPairing,
    NovaForgetPeer,
    NovaListPeers,
    NovaLocalDevice,
    NovaPairPeer,
    NovaRevokePeer,
    NovaScan,
    NovaTestPeer,
    NovaUpdatePeer,
    NovaWatchPeers,
    OpenTerminal,
    PiPackageAction,
    RemovePiCredential,
    ResizeTerminal,
    SetPiCredential,
    SetPiOpenAiCompatible,
    SetPiSetting,
    SubscribeTerminal,
    ToolOutput,
    UpdateStatus,
    WatchChats,
    WatchCollaborations,
    WatchDevices,
    WatchDocMessages,
    WatchProjects,
    WatchSessions,
    WriteTerminal,
}

impl Method {
    /// Whether the method's parameters are null in place of an empty object.
    pub open spec fn is_bare(self) -> bool {
        self == Method::NovaBeginPairing || self == Method::NovaListPeers || self
            == Method::NovaLocalDevice || self == Method::NovaWatchPeers
    }

    pub fn takes_null(self) -> (r: bool)
        ensures
            r == self.is_bare(),
    {
        match self {
            Method::NovaBeginPairing
            | Method::NovaListPeers
            | Method::NovaLocalDevice
            | Method::NovaWatchPeers => true,
            _ => false,
        }
    }
}

/// A call of the engine.
pub struct Request {
    method: Method,
    params: Keyed<Value>,
}

/// What a call says.
pub ghost struct Call {
    pub method: Method,
    pub params: Map<Seq<char>, ValueView>,
}

impl View for Request {
    type V = Call;

    closed spec fn view(&self) -> Call {
        Call { method: self.method, params: params_view(self.params@) }
    }
}

impl Request {
    #[verifier::type_invariant]
    spec fn sound(self) -> bool {
        self.params.wf()
    }

    /// A call without parameters.
    pub fn new(method: Method) -> (r: Request)
        ensures
            r@ == (Call { method, params: Map::empty() }),
    {
        let r = Request { method, params: Keyed::new() };
        assert(r@.params =~= Map::<Seq<char>, ValueView>::empty());
        r
    }

    /// The call with one more parameter; one of that name gives way.
    pub fn with(self, name: &str, value: Value) -> (r: Request)
        ensures
            r@ == (Call {
                method: self@.method,
                params: self@.params.insert(name@, value@),
            }),
    {
        proof {
            use_type_invariant(&self);
        }
        let ghost before = self@;
        let Request { method, params } = self;
        let mut params: Keyed<Value> = params;
        params.insert(name.to_owned(), value);
        let r = Request { method, params };
        assert(r@.params =~= before.params.insert(name@, value@));
        r
    }

    /// The call with a text parameter.
    pub fn with_text(self, name: &str, value: &str) -> (r: Request)
        ensures
            r@ == (Call {
                method: self@.method,
                params: self@.params.insert(name@, ValueView::Text(value@)),
            }),
    {
        self.with(name, Value::Text(value.to_owned()))
    }

    pub fn method(&self) -> (m: Method)
        ensures
            m == self@.method,
    {
        self.method
    }

    /// The parameter of that name.
    pub fn param(&self, name: &str) -> (v: Option<&Value>)
        ensures
            match v {
                Some(value) => self@.params.contains_key(name@) && self@.params[name@] == value@,
                None => !self@.params.contains_key(name@),
            },
    {
        proof {
            use_type_invariant(self);
        }
        self.params.get(name)
    }

    pub closed spec fn names(self) -> Seq<Seq<char>> {
        self.params.keys()
    }

    /// How many parameters the call has.
    pub fn param_count(&self) -> (n: usize)
        ensures
            n == self.names().len(),
            self.names().no_duplicates(),
            forall|k: Seq<char>| self.names().contains(k) <==> self@.params.contains_key(k),
    {
        proof {
            use_type_invariant(self);
            self.params.keys_are_the_domain();
        }
        self.params.len()
    }

    /// The `i`-th parameter.
    pub fn param_at(&self, i: usize) -> (p: (&str, &Value))
        requires
            i < self.names().len(),
        ensures
            p.0@ == self.names()[i as int],
            self@.params.contains_key(p.0@),
            self@.params[p.0@] == p.1@,
    {
        proof {
            use_type_invariant(self);
        }
        self.params.entry(i)
    }
}

/// The parameter that routes a call to another device's engine.
pub open spec fn target_name() -> Seq<char> {
    "targetDeviceId"@
}

/// A call routed to a device; without one it stays with the connected engine.
pub open spec fn routed(call: Call, target: Option<Seq<char>>) -> Call {
    match target {
        Some(device) => Call {
            method: call.method,
            params: call.params.insert(target_name(), ValueView::Text(device)),
        },
        None => call,
    }
}

/// The view of an optional text.
pub open spec fn opt(o: Option<String>) -> Option<Seq<char>> {
    match o {
        Some(s) => Some(s@),
        None => None,
    }
}

/// Routes a call to the device that `target` names, if any.
pub fn with_target(request: Request, target: &Option<String>) -> (r: Request)
    ensures
        r@ == routed(request@, opt(*target)),
{
    match target {
        Some(device) => request.with_text("targetDeviceId", device.as_str()),
        None => request,
    }
}

/// Routing a call keeps its method and every other parameter, and the device it
/// names is the target.
pub proof fn routing_only_adds_the_target(call: Call, device: Seq<char>, name: Seq<char>)
    ensures
        routed(call, Some(device)).method == call.method,
        routed(call, Some(device)).params.contains_key(target_name()),
        routed(call, Some(device)).params[target_name()] == ValueView::Text(device),
        name != target_name() ==> (routed(call, Some(device)).params.contains_key(name)
            <==> call.params.contains_key(name)),
        name != target_name() && call.params.contains_key(name) ==> routed(
            call,
            Some(device),
        ).params[name] == call.params[name],
        routed(call, None) == call,
{
}

/// A copy of an optional text.
pub fn copy_opt(o: &Option<String>) -> (r: Option<String>)
    ensures
        r == *o,
{
    match o {
        Some(s) => Some(s.clone()),
        None => None,
    }
}

/// Whether two optional texts are the same.
pub fn same_opt(a: &Option<String>, b: &Option<String>) -> (r: bool)
    ensures
        r == (opt(*a) == opt(*b)),
{
    match (a, b) {
        (Some(x), Some(y)) => *x == *y,
        (None, None) => true,
        _ => false,
    }
}

/// Whether an optional text is `b`.
pub fn is_text(a: &Option<String>, b: &str) -> (r: bool)
    ensures
        r == (opt(*a) == Some(b@)),
{
    match a {
        Some(x) => crate::text::same(x.as_str(), b),
        None => false,
    }
}

}
