//! The filter activation protocol. A filter is driven in two phases per
//! requested frame number: a request-issuing call (`Initial`), then — only
//! once every requested upstream frame is retrievable without blocking — a
//! result-producing call (`AllFramesReady`). An upstream failure instead
//! delivers `Error`, terminal for that frame number. The host here drives
//! the protocol synchronously: it owns the core, the filter instances and
//! the plugin registry, and walks the graph on demand.

use crate::map::{set_fits, set_ok, spec_set, spec_set_error, Value, ValueModel, VsMap};
use crate::frame::VideoFrame;
use crate::key::Key;
use crate::node::{AudioNode, Dependencies, FilterMode, VideoNode};
use crate::plugin::{args_view, ArgModel, ArgSpec};
use crate::vs::{VSActivationReason, VSAudioInfo, VSFilterDependency, VSMapAppendMode, VSVideoInfo};
use crate::vscore::{Core, CoreModel, ObjectDataModel};
use vstd::prelude::*;

verus! {

/// The phase marker of one activation call.
pub type ActivationReason = VSActivationReason;

/// Spec-level image of one in-flight frame request.
pub struct FrameContextModel {
    /// Upstream requests issued so far: source node id and frame number.
    pub requests: Seq<(u64, i32)>,
    /// Frames ready for retrieval: source node id, frame number, frame
    /// object id.
    pub ready: Seq<(u64, i32, int)>,
    /// The per-frame error message, if one was reported.
    pub error: Option<Seq<char>>,
}

/// Some ready frame answers the given request.
pub open spec fn request_ready(ready: Seq<(u64, i32, int)>, req: (u64, i32)) -> bool {
    exists|j: int| 0 <= j < ready.len() && (#[trigger] ready[j]).0 == req.0 && ready[j].1 == req.1
}

/// Every request has a matching ready frame: what the protocol guarantees
/// a filter when it is invoked with `AllFramesReady`.
pub open spec fn all_requests_ready(requests: Seq<(u64, i32)>, ready: Seq<(u64, i32, int)>) -> bool {
    forall|i: int|
        #![trigger requests[i]]
        0 <= i < requests.len() ==> request_ready(ready, requests[i])
}

/// The token for one in-flight frame request: the filter issues upstream
/// requests through it in the first phase, retrieves the ready frames and
/// reports per-frame errors through it in the second.
pub struct FrameContext {
    requests: Vec<(u64, i32)>,
    ready: Vec<(u64, i32, VideoFrame)>,
    error: Option<String>,
}

impl View for FrameContext {
    type V = FrameContextModel;

    closed spec fn view(&self) -> FrameContextModel {
        FrameContextModel {
            requests: self.requests@,
            ready: self.ready@.map_values(|e: (u64, i32, VideoFrame)| (e.0, e.1, e.2@)),
            error: match self.error {
                Some(ref s) => Some(s@),
                None => None,
            },
        }
    }
}

/// The spec-level image of a ready list.
pub open spec fn ready_view(v: Seq<(u64, i32, VideoFrame)>) -> Seq<(u64, i32, int)> {
    v.map_values(|e: (u64, i32, VideoFrame)| (e.0, e.1, e.2@))
}

/// The first entry of `s` that carries frame `n` of node `id`, or `-1`.
pub open spec fn first_ready(s: Seq<(u64, i32, int)>, id: u64, n: i32) -> int
    decreases s.len(),
{
    if s.len() == 0 {
        -1
    } else if s[0].0 == id && s[0].1 == n {
        0
    } else {
        let r = first_ready(s.drop_first(), id, n);
        if r < 0 {
            -1
        } else {
            r + 1
        }
    }
}

/// Where `first_ready` points: at a match that no earlier entry precedes,
/// and only when a match exists.
pub proof fn lemma_first_ready(s: Seq<(u64, i32, int)>, id: u64, n: i32)
    ensures
        first_ready(s, id, n) == -1 ==> forall|j: int|
            0 <= j < s.len() ==> !((#[trigger] s[j]).0 == id && s[j].1 == n),
        first_ready(s, id, n) != -1 ==> {
            let k = first_ready(s, id, n);
            &&& 0 <= k < s.len()
            &&& s[k].0 == id && s[k].1 == n
            &&& forall|j: int| 0 <= j < k ==> !((#[trigger] s[j]).0 == id && s[j].1 == n)
        },
    decreases s.len(),
{
    if s.len() == 0 {
    } else if s[0].0 == id && s[0].1 == n {
    } else {
        lemma_first_ready(s.drop_first(), id, n);
        let rest = s.drop_first();
        let r = first_ready(rest, id, n);
        if r == -1 {
            assert forall|j: int| 0 <= j < s.len() implies !((#[trigger] s[j]).0 == id && s[j].1
                == n) by {
                if j > 0 {
                    assert(s[j] == rest[j - 1]);
                }
            }
        } else {
            assert(s[r + 1] == rest[r]);
            assert forall|j: int| 0 <= j < r + 1 implies !((#[trigger] s[j]).0 == id && s[j].1
                == n) by {
                if j > 0 {
                    assert(s[j] == rest[j - 1]);
                }
            }
        }
    }
}

impl FrameContext {
    /// A context with no requests, no ready frames and no error: what a
    /// fresh in-flight request starts from.
    pub fn empty() -> (r: FrameContext)
        ensures
            r@.requests.len() == 0,
            r@.ready.len() == 0,
            r@.error is None,
    {
        let r = FrameContext { requests: Vec::new(), ready: Vec::new(), error: None };
        proof {
            assert(r@.ready =~= Seq::<(u64, i32, int)>::empty());
        }
        r
    }

    /// Asks the host to have frame `n` of the given upstream node ready
    /// for the second phase. Only meaningful during `Initial`.
    pub fn request_frame_filter(&mut self, n: i32, node: &VideoNode)
        ensures
            final(self)@ == (FrameContextModel {
                requests: old(self)@.requests.push((node@ as u64, n)),
                ..old(self)@
            }),
    {
        let id = node.id();
        self.requests.push((id, n));
        proof {
            assert(self@.ready =~= old(self)@.ready);
        }
    }

    /// Retrieves the first ready frame matching frame `n` of the given
    /// upstream node, handing its reference over to the caller; nothing if
    /// no such frame is (or is still) in the context.
    pub fn get_frame_filter(&mut self, n: i32, node: &VideoNode) -> (r: Option<VideoFrame>)
        ensures
            ({
                let k = first_ready(old(self)@.ready, node@ as u64, n);
                if k == -1 {
                    r is None && final(self)@ == old(self)@
                } else {
                    &&& r matches Some(f) && f@ == old(self)@.ready[k].2
                    &&& final(self)@ == (FrameContextModel {
                        ready: old(self)@.ready.remove(k),
                        ..old(self)@
                    })
                }
            }),
    {
        let id = node.id();
        proof {
            lemma_first_ready(self@.ready, id, n);
        }
        let mut i: usize = 0;
        let len = self.ready.len();
        while i < len
            invariant
                self@ == old(self)@,
                id == node@ as u64,
                i <= len,
                len == old(self)@.ready.len(),
                forall|j: int|
                    0 <= j < i ==> !((#[trigger] old(self)@.ready[j]).0 == id && old(
                        self,
                    )@.ready[j].1 == n),
            decreases len - i,
        {
            let hit = self.ready[i].0 == id && self.ready[i].1 == n;
            if hit {
                proof {
                    assert((#[trigger] old(self)@.ready[i as int]).0 == id && old(
                        self,
                    )@.ready[i as int].1 == n);
                    lemma_first_ready_at(old(self)@.ready, id, n, i as int);
                }
                let e = self.ready.remove(i);
                proof {
                    assert(self@.ready =~= old(self)@.ready.remove(i as int));
                }
                return Some(e.2);
            }
            i = i + 1;
        }
        proof {
            lemma_first_ready(old(self)@.ready, id, n);
        }
        None
    }

    /// Whether every recorded request has a matching ready frame: what a
    /// caller must establish before delivering the result-producing phase.
    pub fn all_ready(&self) -> (r: bool)
        ensures
            r == all_requests_ready(self@.requests, self@.ready),
    {
        let mut i: usize = 0;
        let nreq = self.requests.len();
        while i < nreq
            invariant
                i <= nreq,
                nreq == self@.requests.len(),
                forall|q: int|
                    0 <= q < i ==> request_ready(self@.ready, #[trigger] self@.requests[q]),
            decreases nreq - i,
        {
            let (rid, rn) = self.requests[i];
            let mut found = false;
            let mut j: usize = 0;
            let nrdy = self.ready.len();
            while j < nrdy
                invariant
                    j <= nrdy,
                    nrdy == self@.ready.len(),
                    i < self@.requests.len(),
                    (rid, rn) == self@.requests[i as int],
                    found ==> request_ready(self@.ready, self@.requests[i as int]),
                    !found ==> forall|q: int|
                        0 <= q < j ==> !((#[trigger] self@.ready[q]).0 == rid && self@.ready[q].1
                            == rn),
                decreases nrdy - j,
            {
                let hit = self.ready[j].0 == rid && self.ready[j].1 == rn;
                if hit {
                    found = true;
                    proof {
                        assert((#[trigger] self@.ready[j as int]).0 == rid
                            && self@.ready[j as int].1 == rn);
                        assert(request_ready(self@.ready, self@.requests[i as int]));
                    }
                }
                j = j + 1;
            }
            if !found {
                proof {
                    assert(!request_ready(self@.ready, self@.requests[i as int]));
                }
                return false;
            }
            i = i + 1;
        }
        true
    }

    /// Attaches a per-frame error message to this request. The caller may
    /// retry the frame; the graph is not torn down.
    pub fn set_filter_error(&mut self, msg: &str)
        ensures
            final(self)@ == (FrameContextModel { error: Some(msg@), ..old(self)@ }),
    {
        self.error = Some(msg.to_owned());
        proof {
            assert(self@.ready =~= old(self)@.ready);
        }
    }

    /// The error message attached to this request, if any.
    pub fn error_message(&self) -> (r: Option<String>)
        ensures
            match r {
                Some(s) => self@.error == Some(s@),
                None => self@.error is None,
            },
    {
        match &self.error {
            Some(s) => Some(s.clone()),
            None => None,
        }
    }
}

/// A matching entry preceded by no other match is the one `first_ready`
/// points at.
proof fn lemma_first_ready_at(s: Seq<(u64, i32, int)>, id: u64, n: i32, k: int)
    requires
        0 <= k < s.len(),
        s[k].0 == id && s[k].1 == n,
        forall|j: int| 0 <= j < k ==> !((#[trigger] s[j]).0 == id && s[j].1 == n),
    ensures
        first_ready(s, id, n) == k,
    decreases s.len(),
{
    if k == 0 {
    } else {
        let rest = s.drop_first();
        assert forall|j: int| 0 <= j < k - 1 implies !((#[trigger] rest[j]).0 == id && rest[j].1
            == n) by {
            assert(rest[j] == s[j + 1]);
        }
        assert(rest[k - 1] == s[k]);
        lemma_first_ready_at(rest, id, n, k - 1);
    }
}

/// The polymorphic filter interface. Implementers register filter nodes in
/// `create` and produce frames in `get_frame`, under the two-phase
/// activation protocol: during `Initial` they may issue upstream requests
/// and must not return a frame; during `AllFramesReady` — which the host
/// enters only once every requested frame is ready, as the `requires`
/// states — they must produce a frame or report a failure; on `Error` they
/// must release their state for this frame number and return at once.
///
/// The typed scratch slot `FrameData` is threaded between the two phases
/// of one frame number and never leaks across frame numbers: the host
/// hands every activation of a new frame number a slot holding `None`.
pub trait Filter: Sized {
    /// Per-frame scratch carried from `Initial` to `AllFramesReady`.
    type FrameData;

    /// Registration-time data handed to `create`: whatever was supplied
    /// when the filter was advertised travels, once, to the first
    /// invocation.
    type FilterData;

    /// The advertised filter name.
    spec fn spec_name() -> Seq<char>;

    /// The advertised argument signature.
    spec fn spec_args() -> Seq<ArgModel>;

    /// The advertised return signature.
    spec fn spec_return_type() -> Seq<ArgModel>;

    /// The advertised filter name.
    fn name() -> (r: String)
        ensures
            r@ == Self::spec_name(),
    ;

    /// The advertised argument signature.
    fn args() -> (r: Vec<ArgSpec>)
        ensures
            args_view(r@) == Self::spec_args(),
    ;

    /// The advertised return signature.
    fn return_type() -> (r: Vec<ArgSpec>)
        ensures
            args_view(r@) == Self::spec_return_type(),
    ;

    /// The concurrency contract the filter commits to.
    fn filter_mode() -> FilterMode;

    /// Reads its arguments from `input`, validates them, and registers a
    /// new node with the host (a side effect on the host, not a return
    /// value); on failure the message is attached to `output`. The host
    /// hands it a fresh, empty output map, and the registration-time data
    /// slot, if one is still held.
    fn create(
        input: &VsMap,
        output: &mut VsMap,
        data: Option<Self::FilterData>,
        host: &mut Host<Self>,
    ) -> (r: Result<(), String>)
        requires
            old(output)@.error is None,
            old(output)@.entries.len() == 0,
    ;

    /// One activation: issues requests on `Initial`, produces a frame or
    /// reports a failure on `AllFramesReady`, returns at once on `Error`.
    fn get_frame(
        &self,
        n: i32,
        activation_reason: ActivationReason,
        frame_data: &mut Option<Self::FrameData>,
        frame_ctx: &mut FrameContext,
        core: &mut Core,
    ) -> (r: Result<Option<VideoFrame>, String>)
        requires
            activation_reason == VSActivationReason::AllFramesReady ==> all_requests_ready(
                old(frame_ctx)@.requests,
                old(frame_ctx)@.ready,
            ),
    ;

    /// Runs the filter's cleanup when the host destroys its node.
    fn free(self, core: &mut Core);
}

/// One function a plugin advertises: its name and signatures.
struct RegisteredFunction {
    name: String,
    args: Vec<ArgSpec>,
    ret: Vec<ArgSpec>,
}

/// Spec-level image of one advertised function.
pub struct FunctionModel {
    pub name: Seq<char>,
    pub args: Seq<ArgModel>,
    pub ret: Seq<ArgModel>,
}

impl View for RegisteredFunction {
    type V = FunctionModel;

    closed spec fn view(&self) -> FunctionModel {
        FunctionModel { name: self.name@, args: args_view(self.args@), ret: args_view(self.ret@) }
    }
}

/// Spec-level image of a host: its core, which nodes have a live filter
/// instance, the advertised functions, and the activation call log.
pub struct HostModel {
    pub core: CoreModel,
    pub instances: Seq<(u64, bool)>,
    pub functions: Seq<FunctionModel>,
    pub call_log: Seq<(u64, i32, VSActivationReason)>,
}

/// The in-process host: the core, the filter instances it owns from
/// creation until their node dies, the plugin registry, and a log of every
/// activation call it makes — the audit trail of the protocol.
pub struct Host<F> {
    core: Core,
    instances: Vec<(u64, Option<F>)>,
    functions: Vec<RegisteredFunction>,
    plugin_id: String,
    plugin_namespace: String,
    plugin_name: String,
    plugin_version: i32,
    call_log: Vec<(u64, i32, VSActivationReason)>,
}

/// The spec-level image of an instance table.
pub open spec fn instances_view<F>(v: Seq<(u64, Option<F>)>) -> Seq<(u64, bool)> {
    v.map_values(|e: (u64, Option<F>)| (e.0, e.1 is Some))
}

impl<F> View for Host<F> {
    type V = HostModel;

    closed spec fn view(&self) -> HostModel {
        HostModel {
            core: self.core@,
            instances: instances_view(self.instances@),
            functions: self.functions@.map_values(|f: RegisteredFunction| f@),
            call_log: self.call_log@,
        }
    }
}

impl<F> Host<F> {
    /// A host around a fresh core, configured with the plugin's identity.
    pub fn new(core: Core, id: &str, namespace: &str, name: &str, version: i32) -> (r: Host<F>)
        ensures
            r@.core == core@,
            r@.instances.len() == 0,
            r@.functions.len() == 0,
            r@.call_log.len() == 0,
            r.spec_namespace() == namespace@,
            r.spec_plugin_id() == id@,
            r.spec_plugin_name() == name@,
            r.spec_plugin_version() == version,
    {
        let r = Host {
            core,
            instances: Vec::new(),
            functions: Vec::new(),
            plugin_id: id.to_owned(),
            plugin_namespace: namespace.to_owned(),
            plugin_name: name.to_owned(),
            plugin_version: version,
            call_log: Vec::new(),
        };
        proof {
            assert(r@.instances =~= Seq::<(u64, bool)>::empty());
            assert(r@.functions =~= Seq::<FunctionModel>::empty());
        }
        r
    }

    /// The plugin's unique identifier.
    pub closed spec fn spec_plugin_id(&self) -> Seq<char> {
        self.plugin_id@
    }

    /// The plugin's namespace.
    pub closed spec fn spec_namespace(&self) -> Seq<char> {
        self.plugin_namespace@
    }

    /// The plugin's human-readable name.
    pub closed spec fn spec_plugin_name(&self) -> Seq<char> {
        self.plugin_name@
    }

    /// The plugin's version.
    pub closed spec fn spec_plugin_version(&self) -> int {
        self.plugin_version as int
    }

    /// The plugin's unique identifier.
    pub fn plugin_id(&self) -> (r: String)
        ensures
            r@ == self.spec_plugin_id(),
    {
        self.plugin_id.clone()
    }

    /// The plugin's namespace.
    pub fn namespace(&self) -> (r: String)
        ensures
            r@ == self.spec_namespace(),
    {
        self.plugin_namespace.clone()
    }

    /// The plugin's human-readable name.
    pub fn plugin_name(&self) -> (r: String)
        ensures
            r@ == self.spec_plugin_name(),
    {
        self.plugin_name.clone()
    }

    /// The plugin's version.
    pub fn plugin_version(&self) -> (r: i32)
        ensures
            r == self.spec_plugin_version(),
    {
        self.plugin_version
    }

    /// Read access to the core.
    pub fn core_ref(&self) -> (r: &Core)
        ensures
            r@ == self@.core,
    {
        &self.core
    }

    /// Write access to the core.
    pub fn core_mut(&mut self) -> (r: &mut Core)
        ensures
            r@ == old(self)@.core,
            final(self)@ == (HostModel { core: final(r)@, ..old(self)@ }),
    {
        &mut self.core
    }

    /// Takes the core out of the host, consuming it.
    pub fn into_core(self) -> (r: Core)
        ensures
            r@ == self@.core,
    {
        self.core
    }

}

impl<F: Filter> Host<F> {
    /// Advertises the filter under its own name and signatures.
    pub fn register_function(&mut self)
        ensures
            final(self)@ == (HostModel {
                functions: old(self)@.functions.push(
                    FunctionModel {
                        name: F::spec_name(),
                        args: F::spec_args(),
                        ret: F::spec_return_type(),
                    },
                ),
                ..old(self)@
            }),
    {
        let f = RegisteredFunction { name: F::name(), args: F::args(), ret: F::return_type() };
        self.functions.push(f);
        proof {
            assert(self@.functions =~= old(self)@.functions.push(
                FunctionModel {
                    name: F::spec_name(),
                    args: F::spec_args(),
                    ret: F::spec_return_type(),
                },
            ));
        }
    }

}

impl<F> Host<F> {
    /// The call log: every activation call the host has made, in order —
    /// node id, frame number, phase.
    pub fn call_log(&self) -> (r: Vec<(u64, i32, VSActivationReason)>)
        ensures
            r@ == self@.call_log,
    {
        vstd::slice::slice_to_vec(self.call_log.as_slice())
    }

    /// Number of advertised functions.
    pub fn num_functions(&self) -> (r: usize)
        ensures
            r == self@.functions.len(),
    {
        self.functions.len()
    }

    /// The name of the advertised function at `i`.
    pub fn function_name(&self, i: usize) -> (r: String)
        requires
            i < self@.functions.len(),
        ensures
            r@ == self@.functions[i as int].name,
    {
        self.functions[i].name.clone()
    }

    /// The argument signature of the advertised function at `i`, in the
    /// host's grammar.
    pub fn function_arguments(&self, i: usize) -> (r: String)
        requires
            i < self@.functions.len(),
        ensures
            r@ == crate::plugin::spec_render_sig(self@.functions[i as int].args),
    {
        crate::plugin::render_signature(&self.functions[i].args)
    }

    /// The return signature of the advertised function at `i`, in the
    /// host's grammar.
    pub fn function_return_type(&self, i: usize) -> (r: String)
        requires
            i < self@.functions.len(),
        ensures
            r@ == crate::plugin::spec_render_sig(self@.functions[i as int].ret),
    {
        crate::plugin::render_signature(&self.functions[i].ret)
    }

    /// The index of the advertised function `invoke` dispatches to for
    /// `name`: the first one carrying it, if any.
    pub fn get_function_by_name(&self, name: &str) -> (r: Option<usize>)
        ensures
            match r {
                Some(i) => i == find_function(self@.functions, name@) && i
                    < self@.functions.len() && self@.functions[i as int].name == name@,
                None => find_function(self@.functions, name@) == -1 && !function_declared(
                    self@.functions,
                    name@,
                ),
            },
    {
        let wanted = name.to_owned();
        let mut i: usize = 0;
        let len = self.functions.len();
        while i < len
            invariant
                i <= len,
                len == self@.functions.len(),
                wanted@ == name@,
                forall|j: int| 0 <= j < i ==> (#[trigger] self@.functions[j]).name != name@,
            decreases len - i,
        {
            if self.functions[i].name == wanted {
                proof {
                    lemma_find_function_at(self@.functions, name@, i as int);
                }
                return Some(i);
            }
            i = i + 1;
        }
        proof {
            lemma_find_function(self@.functions, name@);
            if find_function(self@.functions, name@) != -1 {
                let k = find_function(self@.functions, name@);
                assert(self@.functions[k].name != name@);
            }
        }
        None
    }

    /// Creates a filter node: registers it with the core under the given
    /// clip information and dependencies, takes ownership of the filter
    /// instance for the node's lifetime, and appends the node's first
    /// reference to the output map under `clip`. A dependency that is not
    /// a live video node poisons the output map instead.
    pub fn create_video_filter(
        &mut self,
        out: &mut VsMap,
        name: &str,
        info: &VSVideoInfo,
        filter: F,
        deps: &Dependencies,
    )
        requires
            old(out)@.error is None,
            set_fits(old(out)@, "clip"@, VSMapAppendMode::Append),
            set_ok(
                old(out)@,
                "clip"@,
                ValueModel::VideoNode(old(self)@.core.objects.len() as int),
                VSMapAppendMode::Append,
            ),
        ensures
            ({
                let c0 = old(self)@.core;
                let nid = c0.objects.len() as int;
                if deps_valid(c0, deps@) && c0.objects.len() < u64::MAX {
                    &&& final(self)@.core == c0.spec_new_obj(
                        ObjectDataModel::VideoNode {
                            node_info: *info,
                            deps: deps@,
                            source_frames: None,
                        },
                    )
                    &&& final(self)@.instances == old(self)@.instances.push((nid as u64, true))
                    &&& final(self)@.functions == old(self)@.functions
                    &&& final(self)@.call_log == old(self)@.call_log
                    &&& final(out)@ == spec_set(
                        old(out)@,
                        "clip"@,
                        ValueModel::VideoNode(nid),
                        VSMapAppendMode::Append,
                    )
                } else {
                    &&& final(self)@ == old(self)@
                    &&& final(out)@.error is Some
                }
            }),
    {
        let _ = name;
        if !((self.core.num_objects() as u64) < u64::MAX) {
            out.set_error("the core cannot hold another object");
            return ;
        }
        let mut i: usize = 0;
        let len = deps.len();
        while i < len
            invariant
                i <= len,
                len == deps@.len(),
                self@ == old(self)@,
                out@ == old(out)@,
                forall|j: int|
                    0 <= j < i ==> self@.core.is_video_node((#[trigger] deps@[j]).source as int),
            decreases len - i,
        {
            let d = deps.get(i);
            if self.core.video_node_info_by_id(d.source).is_none() {
                proof {
                    assert(!self@.core.is_video_node((#[trigger] deps@[i as int]).source as int));
                }
                out.set_error("a filter dependency does not name a live video node");
                return ;
            }
            i = i + 1;
        }
        let node = self.core.register_video_filter_node(info, deps.to_vec());
        let nid = node.id();
        self.instances.push((nid, Some(filter)));
        let key = match Key::from_str("clip") {
            Ok(k) => k,
            Err(_) => {
                proof {
                    reveal_strlit("clip");
                    assert(crate::key::is_valid_key("clip"@));
                }
                vstd::pervasive::unreached()
            },
        };
        let r = out.consume_node(&key, node, VSMapAppendMode::Append);
        proof {
            assert(self@.instances.len() == old(self)@.instances.len() + 1);
            assert(self@.instances[old(self)@.instances.len() as int] == (nid, true));
            assert(self@.instances =~= old(self)@.instances.push((nid, true)));
        }
        match r {
            Ok(()) => {},
            Err(_) => {
                proof {
                    assert(false);
                }
            },
        }
    }

}

impl<F: Filter> Host<F> {
    /// Creates an audio filter node: registers it with the core under the
    /// given clip information and dependencies, takes ownership of the
    /// filter instance for the node's lifetime, and appends the node's
    /// first reference to the output map under `clip`. A dependency that
    /// is not a live audio node poisons the output map instead. The pull
    /// driver of this host serves video nodes only; an audio filter node
    /// is created, owned and freed like a video one, but frames of it are
    /// not produced here.
    pub fn create_audio_filter(
        &mut self,
        out: &mut VsMap,
        name: &str,
        info: &VSAudioInfo,
        filter: F,
        deps: &Dependencies,
    )
        requires
            old(out)@.error is None,
            set_fits(old(out)@, "clip"@, VSMapAppendMode::Append),
            set_ok(
                old(out)@,
                "clip"@,
                ValueModel::AudioNode(old(self)@.core.objects.len() as int),
                VSMapAppendMode::Append,
            ),
        ensures
            ({
                let c0 = old(self)@.core;
                let nid = c0.objects.len() as int;
                if audio_deps_valid(c0, deps@) && c0.objects.len() < u64::MAX {
                    &&& final(self)@.core == c0.spec_new_obj(
                        ObjectDataModel::AudioNode { audio_info: *info, audio_deps: deps@ },
                    )
                    &&& final(self)@.instances == old(self)@.instances.push((nid as u64, true))
                    &&& final(self)@.functions == old(self)@.functions
                    &&& final(self)@.call_log == old(self)@.call_log
                    &&& final(out)@ == spec_set(
                        old(out)@,
                        "clip"@,
                        ValueModel::AudioNode(nid),
                        VSMapAppendMode::Append,
                    )
                } else {
                    &&& final(self)@ == old(self)@
                    &&& final(out)@.error is Some
                }
            }),
    {
        let _ = name;
        if !((self.core.num_objects() as u64) < u64::MAX) {
            out.set_error("the core cannot hold another object");
            return ;
        }
        let mut i: usize = 0;
        let len = deps.len();
        while i < len
            invariant
                i <= len,
                len == deps@.len(),
                self@ == old(self)@,
                out@ == old(out)@,
                forall|j: int|
                    0 <= j < i ==> self@.core.is_audio_node((#[trigger] deps@[j]).source as int),
            decreases len - i,
        {
            let d = deps.get(i);
            if self.core.audio_node_info_by_id(d.source).is_none() {
                proof {
                    assert(!self@.core.is_audio_node((#[trigger] deps@[i as int]).source as int));
                }
                out.set_error("a filter dependency does not name a live audio node");
                return ;
            }
            i = i + 1;
        }
        let node = self.core.register_audio_filter_node(info, deps.to_vec());
        let nid = node.id();
        self.instances.push((nid, Some(filter)));
        let key = match Key::from_str("clip") {
            Ok(k) => k,
            Err(_) => {
                proof {
                    reveal_strlit("clip");
                    assert(crate::key::is_valid_key("clip"@));
                }
                vstd::pervasive::unreached()
            },
        };
        let r = out.set(&key, Value::AudioNode(node), VSMapAppendMode::Append);
        proof {
            assert(self@.instances.len() == old(self)@.instances.len() + 1);
            assert(self@.instances[old(self)@.instances.len() as int] == (nid, true));
            assert(self@.instances =~= old(self)@.instances.push((nid, true)));
        }
        match r {
            Ok(()) => {},
            Err(_) => {
                proof {
                    assert(false);
                }
            },
        }
    }

    /// Gives a video node reference back to the host. When the last
    /// reference to a filter node dies, the host clears the node's
    /// instance slot and runs the filter's cleanup — exactly once, since a
    /// later release finds the slot already cleared.
    pub fn free_node(&mut self, n: VideoNode)
        ensures
            final(self)@.functions == old(self)@.functions,
            old(self)@.core.refcount(n@) != 1 ==> final(self)@.core == old(
                self,
            )@.core.spec_free_obj(n@) && final(self)@.instances == old(self)@.instances
                && final(self)@.call_log == old(self)@.call_log,
            old(self)@.core.refcount(n@) == 1 ==> ({
                let k = first_instance(old(self)@.instances, n@ as u64);
                let slot = (old(self)@.instances[k].0, false);
                &&& final(self)@.call_log == old(self)@.call_log
                &&& (k == -1 ==> final(self)@.instances == old(self)@.instances
                    && final(self)@.core == old(self)@.core.spec_free_obj(n@))
                &&& (k != -1 ==> final(self)@.instances == old(self)@.instances.update(k, slot))
                &&& (k != -1 && !old(self)@.instances[k].1 ==> final(self)@.core
                    == old(self)@.core.spec_free_obj(n@))
            }),
    {
        let id = n.id();
        let rc = self.core.ref_count(id);
        if rc != 1 {
            self.core.free_node(n);
            return ;
        }
        self.core.free_node(n);
        let inst = self.take_instance(id);
        match inst {
            Some(f) => {
                F::free(f, &mut self.core);
            },
            None => {},
        }
    }

    /// Takes the filter instance of node `id` out of the table, clearing
    /// the first slot that carries the id.
    fn take_instance(&mut self, id: u64) -> (r: Option<F>)
        ensures
            final(self)@.core == old(self)@.core,
            final(self)@.functions == old(self)@.functions,
            final(self)@.call_log == old(self)@.call_log,
            ({
                let k = first_instance(old(self)@.instances, id);
                if k == -1 {
                    final(self)@.instances == old(self)@.instances && r is None
                } else {
                    final(self)@.instances == old(self)@.instances.update(
                        k,
                        (old(self)@.instances[k].0, false),
                    ) && (r is Some <==> old(self)@.instances[k].1)
                }
            }),
    {
        let mut i: usize = 0;
        let len = self.instances.len();
        while i < len
            invariant
                i <= len,
                len == self@.instances.len(),
                self@ == old(self)@,
                forall|j: int| 0 <= j < i ==> (#[trigger] old(self)@.instances[j]).0 != id,
            decreases len - i,
        {
            if self.instances[i].0 == id {
                proof {
                    lemma_first_instance_at(old(self)@.instances, id, i as int);
                }
                let e = self.instances.remove(i);
                let (eid, inst) = e;
                self.instances.insert(i, (eid, None));
                proof {
                    assert(self@.instances =~= old(self)@.instances.update(
                        i as int,
                        (old(self)@.instances[i as int].0, false),
                    ));
                    assert(self@.core == old(self)@.core);
                    assert(self@.functions =~= old(self)@.functions);
                    assert(self@.call_log == old(self)@.call_log);
                }
                return inst;
            }
            i = i + 1;
        }
        proof {
            lemma_first_instance(old(self)@.instances, id);
            if first_instance(old(self)@.instances, id) != -1 {
                let k = first_instance(old(self)@.instances, id);
                assert(old(self)@.instances[k].0 != id);
            }
        }
        None
    }

    /// The index of the live instance owned for node `id`.
    fn find_instance(&self, id: u64) -> (r: Option<usize>)
        ensures
            match r {
                Some(i) => i < self@.instances.len() && self@.instances[i as int].0 == id
                    && self@.instances[i as int].1 && has_live_instance(self@.instances, id),
                None => !has_live_instance(self@.instances, id),
            },
    {
        let mut i: usize = 0;
        let len = self.instances.len();
        while i < len
            invariant
                i <= len,
                len == self@.instances.len(),
                forall|j: int|
                    0 <= j < i ==> !((#[trigger] self@.instances[j]).0 == id
                        && self@.instances[j].1),
            decreases len - i,
        {
            let hit = self.instances[i].0 == id && self.instances[i].1.is_some();
            if hit {
                proof {
                    assert((#[trigger] self@.instances[i as int]).0 == id
                        && self@.instances[i as int].1);
                    assert(has_live_instance(self@.instances, id));
                }
                return Some(i);
            }
            i = i + 1;
        }
        proof {
            assert(!has_live_instance(self@.instances, id));
        }
        None
    }

    /// Invokes an advertised function: validates the argument map against
    /// the declared signature of the first function carrying the name,
    /// then runs the filter's `create`. Every failure — unknown name,
    /// signature mismatch, or a failure reported by `create` — is returned
    /// as the error state of the output map.
    pub fn invoke(&mut self, name: &str, args: &VsMap, data: Option<F::FilterData>) -> (r: VsMap)
        requires
            args@.error is None,
        ensures
            !function_declared(old(self)@.functions, name@) ==> r@.error is Some && final(self)@
                == old(self)@,
            ({
                let k = find_function(old(self)@.functions, name@);
                k != -1 && !crate::plugin::args_match(old(self)@.functions[k].args, args@)
                    ==> r@.error is Some && final(self)@ == old(self)@
            }),
    {
        let mut out = VsMap::new();
        let idx = match self.get_function_by_name(name) {
            Some(i) => i,
            None => {
                out.set_error("the plugin advertises no function with this name");
                return out;
            },
        };
        let valid = crate::plugin::validate_args(&self.functions[idx].args, args);
        if !valid {
            out.set_error("the arguments do not satisfy the advertised signature");
            return out;
        }
        let res = F::create(args, &mut out, data, self);
        apply_create_outcome(&mut out, CallOutcome::Returned(res));
        out
    }

    /// Pulls one frame of a node synchronously, driving the two-phase
    /// protocol across the graph: out of protocol, never to be called from
    /// within `create`, `get_frame` or `free`.
    pub fn get_frame(&mut self, node: &VideoNode, n: i32) -> (r: Result<VideoFrame, String>)
        ensures
            final(self)@.functions == old(self)@.functions,
            final(self)@.instances == old(self)@.instances,
            !old(self)@.core.is_video_node(node@) ==> r is Err && final(self)@ == old(self)@,
            (old(self)@.core.is_video_node(node@) && old(self)@.core.source_frames_of(node@)
                is None && !has_live_instance(old(self)@.instances, node@ as u64)) ==> r is Err
                && final(self)@ == old(self)@,
            old(self)@.call_log.len() <= final(self)@.call_log.len(),
            final(self)@.call_log.take(old(self)@.call_log.len() as int) == old(self)@.call_log,
            log_suffix_ordered(
                final(self)@.call_log.skip(old(self)@.call_log.len() as int),
                node@ as u64,
                n,
            ),
            ({
                let c0 = old(self)@.core;
                let frames = c0.source_frames_of(node@)->0;
                (c0.is_video_node(node@) && c0.source_frames_of(node@) is Some) ==> (if 0 <= n
                    < frames.len() {
                    &&& r matches Ok(f) && f@ == frames[n as int]
                    &&& final(self)@ == (HostModel {
                        core: c0.spec_clone_obj(frames[n as int] as int),
                        ..old(self)@
                    })
                } else {
                    &&& r is Err
                    &&& final(self)@ == old(self)@
                })
            }),
    {
        self.request_frame_inner(node.id(), n)
    }

    /// Pulls frame `n` of node `id`: serves sources from their preset
    /// frames; activates a filter node with `Initial`, resolves every
    /// requested upstream frame, and only then activates it with
    /// `AllFramesReady`; an upstream failure delivers `Error` instead. A
    /// fresh scratch slot is made for this frame number and dropped when
    /// the request ends: it never leaks across frame numbers.
    fn request_frame_inner(&mut self, id: u64, n: i32) -> (r: Result<VideoFrame, String>)
        ensures
            final(self)@.functions == old(self)@.functions,
            final(self)@.instances == old(self)@.instances,
            !old(self)@.core.is_video_node(id as int) ==> r is Err && final(self)@ == old(self)@,
            (old(self)@.core.is_video_node(id as int) && old(self)@.core.source_frames_of(
                id as int,
            ) is None && !has_live_instance(old(self)@.instances, id)) ==> r is Err
                && final(self)@ == old(self)@,
            old(self)@.call_log.len() <= final(self)@.call_log.len(),
            final(self)@.call_log.take(old(self)@.call_log.len() as int) == old(self)@.call_log,
            log_suffix_ordered(
                final(self)@.call_log.skip(old(self)@.call_log.len() as int),
                id,
                n,
            ),
            ({
                let c0 = old(self)@.core;
                let frames = c0.source_frames_of(id as int)->0;
                (c0.is_video_node(id as int) && c0.source_frames_of(id as int) is Some) ==> (if 0 <= n
                    < frames.len() {
                    &&& r matches Ok(f) && f@ == frames[n as int]
                    &&& final(self)@ == (HostModel {
                        core: c0.spec_clone_obj(frames[n as int] as int),
                        ..old(self)@
                    })
                } else {
                    &&& r is Err
                    &&& final(self)@ == old(self)@
                })
            }),
        decreases id,
    {
        proof {
            lemma_log_unchanged(old(self)@.call_log, id, n);
        }
        let ghost base: int = old(self)@.call_log.len() as int;
        match self.core.source_frames_by_id(id) {
            Some(frames) => {
                return if 0 <= n && (n as usize) < frames.len() {
                    Ok(self.core.clone_frame_by_id(frames[n as usize]))
                } else {
                    Err("frame number out of range of the source".to_owned())
                };
            },
            None => {},
        }
        let deps = match self.core.video_node_deps_by_id(id) {
            Some(d) => d,
            None => {
                return Err("the requested object is not a live video node".to_owned());
            },
        };
        let idx = match self.find_instance(id) {
            Some(i) => i,
            None => {
                return Err("the node has no filter instance".to_owned());
            },
        };
        // Phase one: collect upstream requests.
        let mut scratch: Option<F::FrameData> = None;
        let mut ctx = FrameContext::empty();
        self.call_log.push((id, n, VSActivationReason::Initial));
        proof {
            lemma_push_prefix(old(self)@.call_log, (id, n, VSActivationReason::Initial));
            assert(self@.call_log[base] == (id, n, VSActivationReason::Initial));
        }
        let r1 = match &self.instances[idx].1 {
            Some(inst) => inst.get_frame(
                n,
                VSActivationReason::Initial,
                &mut scratch,
                &mut ctx,
                &mut self.core,
            ),
            None => {
                return Err("the node has no filter instance".to_owned());
            },
        };
        match r1 {
            Ok(Some(f)) => {
                // No result may be produced during the request phase.
                self.core.free_frame(f);
            },
            Ok(None) => {},
            Err(e) => {
                proof {
                    assert(self@.call_log.skip(base) =~= seq![
                        (id, n, VSActivationReason::Initial),
                    ]);
                    lemma_log_ordered_from_initial(self@.call_log.skip(base), id, n);
                }
                return Err(e);
            },
        }
        if let Some(msg) = ctx.error_message() {
            proof {
                assert(self@.call_log.skip(base) =~= seq![(id, n, VSActivationReason::Initial)]);
                lemma_log_ordered_from_initial(self@.call_log.skip(base), id, n);
            }
            return Err(msg);
        }
        let reqs: Vec<(u64, i32)> = vstd::slice::slice_to_vec(ctx.requests.as_slice());
        // Resolve every requested upstream frame before the second phase.
        let mut ready: Vec<(u64, i32, VideoFrame)> = Vec::new();
        let mut k: usize = 0;
        proof {
            assert(ready_view(ready@) =~= Seq::<(u64, i32, int)>::empty());
        }
        while k < reqs.len()
            invariant
                k <= reqs@.len(),
                ready@.len() == k,
                forall|j: int|
                    0 <= j < k ==> (#[trigger] ready@[j]).0 == reqs@[j].0 && ready@[j].1
                        == reqs@[j].1,
                self@.functions == old(self)@.functions,
                self@.instances == old(self)@.instances,
                idx < self@.instances.len() && self@.instances[idx as int].1,
                !(old(self)@.core.is_video_node(id as int) && old(self)@.core.source_frames_of(
                    id as int,
                ) is Some),
                old(self)@.core.is_video_node(id as int),
                has_live_instance(old(self)@.instances, id),
                base == old(self)@.call_log.len() as int,
                base < self@.call_log.len(),
                self@.call_log.take(base) == old(self)@.call_log,
                self@.call_log[base] == (id, n, VSActivationReason::Initial),
            decreases reqs@.len() - k,
        {
            let (rid, rn) = reqs[k];
            let mut declared = false;
            let mut d: usize = 0;
            while d < deps.len()
                invariant
                    d <= deps@.len(),
                decreases deps@.len() - d,
            {
                if deps[d].source == rid {
                    declared = true;
                }
                d = d + 1;
            }
            if !declared || !(rid < id) {
                let ghost pre = self@.call_log;
                self.deliver_error_activation(idx, id, n, &mut scratch);
                proof {
                    lemma_push_prefix(pre, (id, n, VSActivationReason::Error));
                    lemma_prefix_trans(old(self)@.call_log, pre, self@.call_log);
                    assert(self@.call_log[base] == pre[base]);
                    assert(self@.call_log.skip(base)[0] == self@.call_log[base]);
                    lemma_log_ordered_from_initial(self@.call_log.skip(base), id, n);
                }
                Self::release_frames(&mut self.core, ready);
                return Err("a frame was requested from an undeclared upstream node".to_owned());
            }
            let ghost s1 = self@.call_log;
            match self.request_frame_inner(rid, rn) {
                Ok(f) => {
                    proof {
                        lemma_prefix_trans(old(self)@.call_log, s1, self@.call_log);
                        assert(self@.call_log[base] == s1[base]);
                    }
                    ready.push((rid, rn, f));
                },
                Err(e) => {
                    proof {
                        lemma_prefix_trans(old(self)@.call_log, s1, self@.call_log);
                        assert(self@.call_log[base] == s1[base]);
                    }
                    let ghost s2 = self@.call_log;
                    self.deliver_error_activation(idx, id, n, &mut scratch);
                    proof {
                        lemma_push_prefix(s2, (id, n, VSActivationReason::Error));
                        lemma_prefix_trans(old(self)@.call_log, s2, self@.call_log);
                        assert(self@.call_log[base] == s2[base]);
                        assert(self@.call_log.skip(base)[0] == self@.call_log[base]);
                        lemma_log_ordered_from_initial(self@.call_log.skip(base), id, n);
                    }
                    Self::release_frames(&mut self.core, ready);
                    return Err(e);
                },
            }
            k = k + 1;
        }
        // Phase two: every requested frame is ready.
        let ghost rq = reqs@;
        let ghost rv = ready@;
        let mut ctx2 = FrameContext { requests: reqs, ready, error: None };
        proof {
            assert(ctx2@.requests == rq);
            assert forall|i: int|
                #![trigger ctx2@.requests[i]]
                0 <= i < ctx2@.requests.len() implies request_ready(
                ctx2@.ready,
                ctx2@.requests[i],
            ) by {
                assert((#[trigger] ctx2@.ready[i]) == (rv[i].0, rv[i].1, rv[i].2@));
                assert(rv[i].0 == rq[i].0 && rv[i].1 == rq[i].1);
                assert(request_ready(ctx2@.ready, ctx2@.requests[i]));
            }
            assert(all_requests_ready(ctx2@.requests, ctx2@.ready));
        }
        let ghost before_ready = self@.call_log;
        self.call_log.push((id, n, VSActivationReason::AllFramesReady));
        proof {
            lemma_push_prefix(before_ready, (id, n, VSActivationReason::AllFramesReady));
            lemma_prefix_trans(old(self)@.call_log, before_ready, self@.call_log);
            assert(self@.call_log[base] == before_ready[base]);
            assert(self@.call_log.skip(base)[0] == self@.call_log[base]);
            lemma_log_ordered_from_initial(self@.call_log.skip(base), id, n);
        }
        let r2 = match &self.instances[idx].1 {
            Some(inst) => inst.get_frame(
                n,
                VSActivationReason::AllFramesReady,
                &mut scratch,
                &mut ctx2,
                &mut self.core,
            ),
            None => {
                return Err("the node has no filter instance".to_owned());
            },
        };
        let err = ctx2.error_message();
        Self::release_frames(&mut self.core, ctx2.ready);
        match r2 {
            Ok(Some(f)) => Ok(f),
            Ok(None) => match err {
                Some(msg) => Err(msg),
                None => Err("the filter produced no frame".to_owned()),
            },
            Err(e) => Err(e),
        }
    }

    /// Delivers the terminal `Error` activation for one frame number.
    fn deliver_error_activation(
        &mut self,
        idx: usize,
        id: u64,
        n: i32,
        scratch: &mut Option<F::FrameData>,
    )
        requires
            idx < old(self)@.instances.len(),
        ensures
            final(self)@.functions == old(self)@.functions,
            final(self)@.instances == old(self)@.instances,
            final(self)@.call_log == old(self)@.call_log.push((id, n, VSActivationReason::Error)),
    {
        self.call_log.push((id, n, VSActivationReason::Error));
        let mut ctx = FrameContext::empty();
        let r = match &self.instances[idx].1 {
            Some(inst) => inst.get_frame(
                n,
                VSActivationReason::Error,
                scratch,
                &mut ctx,
                &mut self.core,
            ),
            None => Ok(None),
        };
        match r {
            Ok(Some(f)) => {
                self.core.free_frame(f);
            },
            _ => {},
        }
    }

    /// Gives a list of collected frame references back to the core.
    fn release_frames(core: &mut Core, frames: Vec<(u64, i32, VideoFrame)>)
    {
        let mut frames = frames;
        while frames.len() > 0
            decreases frames@.len(),
        {
            match frames.pop() {
                Some(e) => {
                    core.free_frame(e.2);
                },
                None => {},
            }
        }
    }
}

/// Whether some advertised function carries the given name.
pub open spec fn function_declared(functions: Seq<FunctionModel>, name: Seq<char>) -> bool {
    exists|i: int| 0 <= i < functions.len() && (#[trigger] functions[i]).name == name
}

/// The first advertised function carrying `name` — the one `invoke`
/// dispatches to — or `-1` when none does.
pub open spec fn find_function(functions: Seq<FunctionModel>, name: Seq<char>) -> int
    decreases functions.len(),
{
    if functions.len() == 0 {
        -1
    } else if functions[0].name == name {
        0
    } else {
        let r = find_function(functions.drop_first(), name);
        if r < 0 {
            -1
        } else {
            r + 1
        }
    }
}

/// Where `find_function` points: at a match that no earlier entry
/// precedes, and only when a match exists.
pub proof fn lemma_find_function(functions: Seq<FunctionModel>, name: Seq<char>)
    ensures
        find_function(functions, name) == -1 ==> forall|j: int|
            0 <= j < functions.len() ==> (#[trigger] functions[j]).name != name,
        find_function(functions, name) != -1 ==> {
            let k = find_function(functions, name);
            &&& 0 <= k < functions.len()
            &&& functions[k].name == name
            &&& forall|j: int| 0 <= j < k ==> (#[trigger] functions[j]).name != name
        },
    decreases functions.len(),
{
    if functions.len() == 0 {
    } else if functions[0].name == name {
    } else {
        let rest = functions.drop_first();
        lemma_find_function(rest, name);
        let r = find_function(rest, name);
        if r == -1 {
            assert forall|j: int| 0 <= j < functions.len() implies (#[trigger] functions[j]).name
                != name by {
                if j > 0 {
                    assert(functions[j] == rest[j - 1]);
                }
            }
        } else {
            assert(functions[r + 1] == rest[r]);
            assert forall|j: int| 0 <= j < r + 1 implies (#[trigger] functions[j]).name != name by {
                if j > 0 {
                    assert(functions[j] == rest[j - 1]);
                }
            }
        }
    }
}

/// A matching entry preceded by no other match is the one `find_function`
/// points at.
proof fn lemma_find_function_at(functions: Seq<FunctionModel>, name: Seq<char>, k: int)
    requires
        0 <= k < functions.len(),
        functions[k].name == name,
        forall|j: int| 0 <= j < k ==> (#[trigger] functions[j]).name != name,
    ensures
        find_function(functions, name) == k,
    decreases functions.len(),
{
    if k == 0 {
    } else {
        let rest = functions.drop_first();
        assert forall|j: int| 0 <= j < k - 1 implies (#[trigger] rest[j]).name != name by {
            assert(rest[j] == functions[j + 1]);
        }
        assert(rest[k - 1] == functions[k]);
        lemma_find_function_at(rest, name, k - 1);
    }
}

/// Whether the instance table holds a live instance for node `id`.
pub open spec fn has_live_instance(instances: Seq<(u64, bool)>, id: u64) -> bool {
    exists|i: int|
        0 <= i < instances.len() && (#[trigger] instances[i]).0 == id && instances[i].1
}

/// The first instance-table entry for node `id`, or `-1`.
pub open spec fn first_instance(instances: Seq<(u64, bool)>, id: u64) -> int
    decreases instances.len(),
{
    if instances.len() == 0 {
        -1
    } else if instances[0].0 == id {
        0
    } else {
        let r = first_instance(instances.drop_first(), id);
        if r < 0 {
            -1
        } else {
            r + 1
        }
    }
}

/// Where `first_instance` points: at a match that no earlier entry
/// precedes, and only when a match exists.
pub proof fn lemma_first_instance(instances: Seq<(u64, bool)>, id: u64)
    ensures
        first_instance(instances, id) == -1 ==> forall|j: int|
            0 <= j < instances.len() ==> (#[trigger] instances[j]).0 != id,
        first_instance(instances, id) != -1 ==> {
            let k = first_instance(instances, id);
            &&& 0 <= k < instances.len()
            &&& instances[k].0 == id
            &&& forall|j: int| 0 <= j < k ==> (#[trigger] instances[j]).0 != id
        },
    decreases instances.len(),
{
    if instances.len() == 0 {
    } else if instances[0].0 == id {
    } else {
        let rest = instances.drop_first();
        lemma_first_instance(rest, id);
        let r = first_instance(rest, id);
        if r == -1 {
            assert forall|j: int| 0 <= j < instances.len() implies (#[trigger] instances[j]).0
                != id by {
                if j > 0 {
                    assert(instances[j] == rest[j - 1]);
                }
            }
        } else {
            assert(instances[r + 1] == rest[r]);
            assert forall|j: int| 0 <= j < r + 1 implies (#[trigger] instances[j]).0 != id by {
                if j > 0 {
                    assert(instances[j] == rest[j - 1]);
                }
            }
        }
    }
}

/// A matching entry preceded by no other match is the one
/// `first_instance` points at.
proof fn lemma_first_instance_at(instances: Seq<(u64, bool)>, id: u64, k: int)
    requires
        0 <= k < instances.len(),
        instances[k].0 == id,
        forall|j: int| 0 <= j < k ==> (#[trigger] instances[j]).0 != id,
    ensures
        first_instance(instances, id) == k,
    decreases instances.len(),
{
    if k == 0 {
    } else {
        let rest = instances.drop_first();
        assert forall|j: int| 0 <= j < k - 1 implies (#[trigger] rest[j]).0 != id by {
            assert(rest[j] == instances[j + 1]);
        }
        assert(rest[k - 1] == instances[k]);
        lemma_first_instance_at(rest, id, k - 1);
    }
}

/// Some entry below index `j` of the log suffix records the
/// request-issuing phase for frame `n` of node `id`.
pub open spec fn initial_logged_before(
    added: Seq<(u64, i32, VSActivationReason)>,
    id: u64,
    n: i32,
    j: int,
) -> bool {
    exists|k: int|
        0 <= k < j && (#[trigger] added[k]) == (id, n, VSActivationReason::Initial)
}

/// In the log entries one call appends, the result-producing phase of a
/// frame number is always preceded by its request-issuing phase.
pub open spec fn log_suffix_ordered(
    added: Seq<(u64, i32, VSActivationReason)>,
    id: u64,
    n: i32,
) -> bool {
    forall|j: int|
        0 <= j < added.len() && (#[trigger] added[j]) == (id, n, VSActivationReason::AllFramesReady)
            ==> initial_logged_before(added, id, n, j)
}

/// A log that gained nothing is its own prefix, and its empty suffix is
/// trivially ordered.
proof fn lemma_log_unchanged(log: Seq<(u64, i32, VSActivationReason)>, id: u64, n: i32)
    ensures
        log.take(log.len() as int) == log,
        log_suffix_ordered(log.skip(log.len() as int), id, n),
{
    assert(log.take(log.len() as int) =~= log);
    assert(log.skip(log.len() as int) =~= Seq::<(u64, i32, VSActivationReason)>::empty());
}

/// A log suffix that opens with the request-issuing entry for a frame
/// number is ordered for it: every later result-producing entry is
/// preceded by that opening entry.
proof fn lemma_log_ordered_from_initial(
    added: Seq<(u64, i32, VSActivationReason)>,
    id: u64,
    n: i32,
)
    requires
        added.len() >= 1,
        added[0] == (id, n, VSActivationReason::Initial),
    ensures
        log_suffix_ordered(added, id, n),
{
    assert forall|j: int|
        0 <= j < added.len() && (#[trigger] added[j]) == (
            id,
            n,
            VSActivationReason::AllFramesReady,
        ) implies initial_logged_before(added, id, n, j) by {
        assert(added[0] == (id, n, VSActivationReason::Initial));
        assert(j != 0);
        assert(initial_logged_before(added, id, n, j));
    }
}

/// Appending entries keeps the old log a prefix.
proof fn lemma_push_prefix<T>(s: Seq<T>, x: T)
    ensures
        s.push(x).take(s.len() as int) == s,
{
    assert(s.push(x).take(s.len() as int) =~= s);
}

/// A prefix of a prefix is a prefix.
proof fn lemma_prefix_trans<T>(a: Seq<T>, b: Seq<T>, c: Seq<T>)
    requires
        a.len() <= b.len(),
        b.len() <= c.len(),
        b.take(a.len() as int) == a,
        c.take(b.len() as int) == b,
    ensures
        c.take(a.len() as int) == a,
{
    assert forall|i: int| 0 <= i < a.len() implies c.take(a.len() as int)[i] == a[i] by {
        assert(c.take(b.len() as int)[i] == b[i]);
        assert(b.take(a.len() as int)[i] == a[i]);
    }
    assert(c.take(a.len() as int) =~= a);
}

/// Whether each declared dependency names a live video node of the core.
pub open spec fn deps_valid(c: CoreModel, deps: Seq<VSFilterDependency>) -> bool {
    forall|i: int| 0 <= i < deps.len() ==> c.is_video_node((#[trigger] deps[i]).source as int)
}

/// Whether each declared dependency names a live audio node of the core.
pub open spec fn audio_deps_valid(c: CoreModel, deps: Seq<VSFilterDependency>) -> bool {
    forall|i: int| 0 <= i < deps.len() ==> c.is_audio_node((#[trigger] deps[i]).source as int)
}

/// The outcome of one user call, as the trampoline at the C boundary sees
/// it: the call returned, or it panicked and the payload was caught.
pub enum CallOutcome<T> {
    Returned(T),
    Panicked(String),
}

/// The create-side trampoline decision: a failure — returned or panicked —
/// is written into the output map's error slot, poisoning it; success
/// leaves the map to the filter's own writes.
pub fn apply_create_outcome(output: &mut VsMap, outcome: CallOutcome<Result<(), String>>)
    ensures
        match outcome {
            CallOutcome::Returned(Ok(())) => final(output)@ == old(output)@,
            CallOutcome::Returned(Err(e)) => final(output)@ == spec_set_error(old(output)@, e@),
            CallOutcome::Panicked(p) => final(output)@ == spec_set_error(old(output)@, p@),
        },
{
    match outcome {
        CallOutcome::Returned(Ok(())) => {},
        CallOutcome::Returned(Err(e)) => {
            output.set_error(e.as_str());
        },
        CallOutcome::Panicked(p) => {
            output.set_error(p.as_str());
        },
    }
}

/// The frame-side trampoline decision: a produced frame is handed onward
/// (its ownership goes to the caller); a failure — returned or panicked —
/// becomes a per-frame error on the context, never an unwind.
pub fn apply_get_frame_outcome(
    ctx: &mut FrameContext,
    outcome: CallOutcome<Result<Option<VideoFrame>, String>>,
) -> (r: Option<VideoFrame>)
    ensures
        match outcome {
            CallOutcome::Returned(Ok(f)) => r == f && final(ctx)@ == old(ctx)@,
            CallOutcome::Returned(Err(e)) => r is None && final(ctx)@ == (FrameContextModel {
                error: Some(e@),
                ..old(ctx)@
            }),
            CallOutcome::Panicked(p) => r is None && final(ctx)@ == (FrameContextModel {
                error: Some(p@),
                ..old(ctx)@
            }),
        },
{
    match outcome {
        CallOutcome::Returned(Ok(f)) => f,
        CallOutcome::Returned(Err(e)) => {
            ctx.set_filter_error(e.as_str());
            None
        },
        CallOutcome::Panicked(p) => {
            ctx.set_filter_error(p.as_str());
            None
        },
    }
}

} // verus!
