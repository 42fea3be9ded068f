//! Plugins and their advertised functions. A filter advertises its
//! argument and return signature in the host's fixed grammar: semicolon
//! separated `name:type[:opt]` declarations over a closed set of types.
//! The signature is carried structured and rendered to its grammar string;
//! the host checks every argument map against it before a filter is
//! created.

use crate::key::Key;
use crate::map::{values_tag, MapModel, VsMap};
use crate::vs::VSPropertyType;
use vstd::prelude::*;

verus! {

/// The closed set of argument types a filter can advertise; an array type
/// holds many values of its element type under one key.
#[derive(Debug)]
pub enum Type {
    Int,
    Float,
    Data,
    ANode,
    VNode,
    AFrame,
    VFrame,
    Func,
    Array(Box<Type>),
}

impl Type {
    /// The grammar word of this type.
    pub open spec fn spec_args(self) -> Seq<char>
        decreases self,
    {
        match self {
            Type::Int => "int"@,
            Type::Float => "float"@,
            Type::Data => "data"@,
            Type::ANode => "anode"@,
            Type::VNode => "vnode"@,
            Type::AFrame => "aframe"@,
            Type::VFrame => "vframe"@,
            Type::Func => "func"@,
            Type::Array(t) => t.spec_args() + "[]"@,
        }
    }

    /// The property tag a value of this type is stored under.
    pub open spec fn spec_tag(self) -> VSPropertyType
        decreases self,
    {
        match self {
            Type::Int => VSPropertyType::Int,
            Type::Float => VSPropertyType::Float,
            Type::Data => VSPropertyType::Data,
            Type::ANode => VSPropertyType::AudioNode,
            Type::VNode => VSPropertyType::VideoNode,
            Type::AFrame => VSPropertyType::AudioFrame,
            Type::VFrame => VSPropertyType::VideoFrame,
            Type::Func => VSPropertyType::Function,
            Type::Array(t) => t.spec_tag(),
        }
    }

    /// Renders the grammar word of this type.
    pub fn to_args(&self) -> (r: String)
        ensures
            r@ == self.spec_args(),
        decreases *self,
    {
        match self {
            Type::Int => "int".to_owned(),
            Type::Float => "float".to_owned(),
            Type::Data => "data".to_owned(),
            Type::ANode => "anode".to_owned(),
            Type::VNode => "vnode".to_owned(),
            Type::AFrame => "aframe".to_owned(),
            Type::VFrame => "vframe".to_owned(),
            Type::Func => "func".to_owned(),
            Type::Array(t) => t.to_args().concat("[]"),
        }
    }

    /// The property tag a value of this type is stored under.
    pub fn tag(&self) -> (r: VSPropertyType)
        ensures
            r == self.spec_tag(),
        decreases *self,
    {
        match self {
            Type::Int => VSPropertyType::Int,
            Type::Float => VSPropertyType::Float,
            Type::Data => VSPropertyType::Data,
            Type::ANode => VSPropertyType::AudioNode,
            Type::VNode => VSPropertyType::VideoNode,
            Type::AFrame => VSPropertyType::AudioFrame,
            Type::VFrame => VSPropertyType::VideoFrame,
            Type::Func => VSPropertyType::Function,
            Type::Array(t) => t.tag(),
        }
    }
}

/// One declared argument of a filter: its key, its type, and whether a
/// caller may leave it unbound.
#[derive(Debug)]
pub struct ArgSpec {
    pub name: Key,
    pub ty: Type,
    pub opt: bool,
}

/// Spec-level image of one declared argument.
pub struct ArgModel {
    pub name: Seq<char>,
    pub ty: Type,
    pub opt: bool,
}

impl View for ArgSpec {
    type V = ArgModel;

    open spec fn view(&self) -> ArgModel {
        ArgModel { name: self.name@, ty: self.ty, opt: self.opt }
    }
}

impl ArgSpec {
    /// A declared argument.
    pub fn new(name: Key, ty: Type, opt: bool) -> (r: ArgSpec)
        ensures
            r@.name == name@ && r@.ty == ty && r@.opt == opt,
    {
        ArgSpec { name, ty, opt }
    }
}

/// The spec-level image of an argument list.
pub open spec fn args_view(v: Seq<ArgSpec>) -> Seq<ArgModel> {
    v.map_values(|a: ArgSpec| a@)
}

/// Collects an argument signature declaration by declaration.
#[derive(Debug)]
pub struct TypeBuilder {
    types: Vec<ArgSpec>,
}

impl View for TypeBuilder {
    type V = Seq<ArgModel>;

    closed spec fn view(&self) -> Seq<ArgModel> {
        args_view(self.types@)
    }
}

impl TypeBuilder {
    /// An empty signature.
    pub fn new() -> (r: TypeBuilder)
        ensures
            r@.len() == 0,
    {
        let r = TypeBuilder { types: Vec::new() };
        proof {
            assert(r@ =~= Seq::<ArgModel>::empty());
        }
        r
    }

    /// Adds one declaration.
    pub fn add(&mut self, key: Key, ty: Type, opt: bool)
        ensures
            final(self)@ == old(self)@.push(ArgModel { name: key@, ty, opt }),
    {
        let ghost kv = key@;
        let ghost tv = ty;
        self.types.push(ArgSpec { name: key, ty, opt });
        proof {
            assert(self@ =~= old(self)@.push(ArgModel { name: kv, ty: tv, opt }));
        }
    }

    /// The collected declarations, in order.
    pub fn build(self) -> (r: Vec<ArgSpec>)
        ensures
            args_view(r@) == self@,
    {
        self.types
    }
}

impl Default for TypeBuilder {
    /// An empty signature.
    fn default() -> (r: TypeBuilder)
        ensures
            r@.len() == 0,
    {
        TypeBuilder::new()
    }
}

/// The grammar text of one declaration: `name:type` with `:opt` appended
/// for an optional argument, closed by a semicolon.
pub open spec fn spec_render_arg(a: ArgModel) -> Seq<char> {
    a.name + ":"@ + a.ty.spec_args() + (if a.opt {
        ":opt"@
    } else {
        Seq::<char>::empty()
    }) + ";"@
}

/// The grammar text of a whole signature: its declarations in order.
pub open spec fn spec_render_sig(args: Seq<ArgModel>) -> Seq<char>
    decreases args.len(),
{
    if args.len() == 0 {
        Seq::empty()
    } else {
        spec_render_arg(args[0]) + spec_render_sig(args.drop_first())
    }
}

/// Renders a whole signature into its grammar string.
pub fn render_signature(args: &Vec<ArgSpec>) -> (r: String)
    ensures
        r@ == spec_render_sig(args_view(args@)),
{
    let mut out = String::new();
    let mut i: usize = 0;
    proof {
        assert(out@ =~= Seq::<char>::empty());
    }
    while i < args.len()
        invariant
            i <= args@.len(),
            out@ == spec_render_sig_prefix(args_view(args@), i as int),
        decreases args@.len() - i,
    {
        let a = &args[i];
        out.append(a.name.as_str());
        out.append(":");
        let ty = a.ty.to_args();
        out.append(ty.as_str());
        if a.opt {
            out.append(":opt");
        }
        out.append(";");
        proof {
            assert(out@ =~= spec_render_sig_prefix(args_view(args@), i as int) + spec_render_arg(
                args_view(args@)[i as int],
            ));
            lemma_render_sig_prefix_step(args_view(args@), i as int);
        }
        i = i + 1;
    }
    proof {
        lemma_render_sig_prefix_all(args_view(args@));
    }
    out
}

/// The grammar text of the first `n` declarations.
pub open spec fn spec_render_sig_prefix(args: Seq<ArgModel>, n: int) -> Seq<char>
    decreases n,
{
    if n <= 0 {
        Seq::empty()
    } else {
        spec_render_sig_prefix(args, n - 1) + spec_render_arg(args[n - 1])
    }
}

/// Rendering one more declaration appends its text.
proof fn lemma_render_sig_prefix_step(args: Seq<ArgModel>, i: int)
    requires
        0 <= i,
    ensures
        spec_render_sig_prefix(args, i + 1) == spec_render_sig_prefix(args, i) + spec_render_arg(
            args[i],
        ),
{
}

/// The full prefix renders the whole signature.
proof fn lemma_render_sig_prefix_all(args: Seq<ArgModel>)
    ensures
        spec_render_sig_prefix(args, args.len() as int) == spec_render_sig(args),
    decreases args.len(),
{
    if args.len() == 0 {
    } else {
        let rest = args.drop_first();
        lemma_render_sig_prefix_all(rest);
        assert forall|n: int| 0 <= n <= rest.len() implies spec_render_sig_prefix(args, n + 1)
            == spec_render_arg(args[0]) + spec_render_sig_prefix(rest, n) by {
            lemma_render_sig_prefix_shift(args, n);
        }
        assert(spec_render_sig(args) == spec_render_arg(args[0]) + spec_render_sig(rest));
        assert(spec_render_sig_prefix(args, args.len() as int) == spec_render_arg(args[0])
            + spec_render_sig_prefix(rest, rest.len() as int));
    }
}

/// A prefix of a signature starting behind the first declaration.
proof fn lemma_render_sig_prefix_shift(args: Seq<ArgModel>, n: int)
    requires
        0 <= n,
        n + 1 <= args.len(),
    ensures
        spec_render_sig_prefix(args, n + 1) == spec_render_arg(args[0]) + spec_render_sig_prefix(
            args.drop_first(),
            n,
        ),
    decreases n,
{
    if n == 0 {
        assert(spec_render_sig_prefix(args, 1) == spec_render_sig_prefix(args, 0)
            + spec_render_arg(args[0]));
        assert(spec_render_sig_prefix(args, 0) + spec_render_arg(args[0]) =~= spec_render_arg(
            args[0],
        ) + spec_render_sig_prefix(args.drop_first(), 0));
    } else {
        lemma_render_sig_prefix_shift(args, n - 1);
        assert(args.drop_first()[n - 1] == args[n]);
        assert((spec_render_arg(args[0]) + spec_render_sig_prefix(args.drop_first(), n - 1))
            + spec_render_arg(args[n]) =~= spec_render_arg(args[0]) + spec_render_sig_prefix(
            args.drop_first(),
            n,
        ));
    }
}

/// Whether some declared argument carries the given name.
pub open spec fn key_is_declared(args: Seq<ArgModel>, name: Seq<char>) -> bool {
    exists|i: int| 0 <= i < args.len() && (#[trigger] args[i]).name == name
}

/// Whether an argument map satisfies a declared signature: every required
/// argument is bound, every bound key is declared, and every bound key
/// holds values of the declared type's tag.
pub open spec fn args_match(args: Seq<ArgModel>, m: MapModel) -> bool {
    &&& forall|i: int|
        0 <= i < args.len() && !(#[trigger] args[i]).opt ==> m.has_key(args[i].name)
    &&& forall|i: int|
        0 <= i < args.len() && m.has_key((#[trigger] args[i]).name) ==> values_tag(
            m.values_of(args[i].name),
        ) == args[i].ty.spec_tag()
    &&& keys_declared(args, m)
}

/// Whether every key the map binds is a declared argument name.
pub open spec fn keys_declared(args: Seq<ArgModel>, m: MapModel) -> bool {
    forall|j: int|
        #![trigger m.entries[j]]
        0 <= j < m.entries.len() ==> key_is_declared(args, m.entries[j].0)
}

/// Checks that every key the map binds is a declared argument name.
fn check_keys_declared(args: &Vec<ArgSpec>, m: &VsMap) -> (r: bool)
    ensures
        r == keys_declared(args_view(args@), m@),
{
    let ghost av = args_view(args@);
    let n = m.len();
    let mut j: i32 = 0;
    while j < n
        invariant
            0 <= j <= n,
            n == m@.entries.len(),
            av == args_view(args@),
            forall|k: int|
                #![trigger m@.entries[k]]
                0 <= k < j ==> key_is_declared(av, m@.entries[k].0),
        decreases n - j,
    {
        let key = m.get_key(j);
        let mut found = false;
        let mut x: usize = 0;
        while x < args.len()
            invariant
                x <= args@.len(),
                av == args_view(args@),
                0 <= j < m@.entries.len(),
                key@ == m@.entries[j as int].0,
                found ==> key_is_declared(av, m@.entries[j as int].0),
                !found ==> forall|y: int|
                    0 <= y < x ==> (#[trigger] av[y]).name != m@.entries[j as int].0,
            decreases args@.len() - x,
        {
            if args[x].name.same_as(key) {
                found = true;
                proof {
                    assert((#[trigger] av[x as int]).name == m@.entries[j as int].0);
                    assert(key_is_declared(av, m@.entries[j as int].0));
                }
            }
            x = x + 1;
        }
        if !found {
            proof {
                assert(forall|y: int|
                    0 <= y < av.len() ==> (#[trigger] av[y]).name != m@.entries[j as int].0);
                assert(!key_is_declared(av, m@.entries[j as int].0));
            }
            return false;
        }
        j = j + 1;
    }
    true
}

/// Checks that every required argument is bound and every bound declared
/// argument holds values of the declared tag.
fn check_required_and_tags(args: &Vec<ArgSpec>, m: &VsMap) -> (r: bool)
    ensures
        r == ({
            let av = args_view(args@);
            &&& forall|i: int|
                0 <= i < av.len() && !(#[trigger] av[i]).opt ==> m@.has_key(av[i].name)
            &&& forall|i: int|
                0 <= i < av.len() && m@.has_key((#[trigger] av[i]).name) ==> values_tag(
                    m@.values_of(av[i].name),
                ) == av[i].ty.spec_tag()
        }),
{
    let ghost av = args_view(args@);
    let mut i: usize = 0;
    while i < args.len()
        invariant
            i <= args@.len(),
            av == args_view(args@),
            forall|k: int| 0 <= k < i && !(#[trigger] av[k]).opt ==> m@.has_key(av[k].name),
            forall|k: int|
                0 <= k < i && m@.has_key((#[trigger] av[k]).name) ==> values_tag(
                    m@.values_of(av[k].name),
                ) == av[k].ty.spec_tag(),
        decreases args@.len() - i,
    {
        let a = &args[i];
        let t = m.get_type(&a.name);
        proof {
            if m@.has_key(a.name@) {
                crate::map::lemma_values_tag_not_unset(m@.values_of(a.name@));
            }
        }
        if t == crate::vs::VSPropertyType::Unset {
            if !a.opt {
                proof {
                    assert(!(#[trigger] av[i as int]).opt && !m@.has_key(av[i as int].name));
                }
                return false;
            }
        } else {
            let want = a.ty.tag();
            if !(t == want) {
                proof {
                    assert(m@.has_key((#[trigger] av[i as int]).name) && values_tag(
                        m@.values_of(av[i as int].name),
                    ) != av[i as int].ty.spec_tag());
                }
                return false;
            }
        }
        i = i + 1;
    }
    true
}

/// Checks an argument map against a declared signature.
pub fn validate_args(args: &Vec<ArgSpec>, m: &VsMap) -> (r: bool)
    requires
        m@.error is None,
    ensures
        r == args_match(args_view(args@), m@),
{
    let a = check_required_and_tags(args, m);
    if !a {
        return false;
    }
    check_keys_declared(args, m)
}

} // verus!
