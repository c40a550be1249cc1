//! The environment: a stack of lexical scopes, each mapping names to
//! bindings and tags to struct layouts. Lookup searches innermost first, so
//! inner bindings shadow outer ones; a second definition of a name in one
//! scope is rejected.
use vstd::prelude::*;
use crate::error::CompileError;
use crate::error::ErrV;
use crate::ir::IrType;
use crate::ir::IrTypeV;
use crate::ir::Ptr;
use crate::ir::PtrV;
use crate::text::str_eq;
use crate::token::BasicType;
use crate::token::BasicTypeV;

verus! {

/// A struct layout: the ordered field names, the IR struct type, and the
/// field IR types in declaration order.
#[derive(Debug, PartialEq)]
pub struct Struct {
    pub names: Vec<String>,
    pub struct_type: IrType,
    pub field_types: Vec<IrType>,
}

/// A name binding: a local variable's stack slot, a type, or a global.
#[derive(Debug, PartialEq)]
pub enum Other {
    Variable(Ptr),
    Type(IrType),
    Global(Ptr),
}

/// A tag binding.
#[derive(Debug, PartialEq)]
pub enum Tag {
    Struct(Struct),
}

/// One lexical scope: its name bindings and its tag bindings, in insertion
/// order with distinct keys.
#[derive(Debug, PartialEq)]
pub struct Scope {
    pub other_stack: Vec<(String, Other)>,
    pub tag_stack: Vec<(String, Tag)>,
}

/// The scope stack; the last element is the innermost scope.
#[derive(Debug, PartialEq)]
pub struct Environment {
    pub scopes: Vec<Scope>,
}

/// Mathematical view of a struct layout.
pub struct StructV {
    pub names: Seq<Seq<char>>,
    pub struct_type: IrTypeV,
    pub field_types: Seq<IrTypeV>,
}

/// Mathematical view of a name binding.
pub enum OtherV {
    Variable(PtrV),
    Type(IrTypeV),
    Global(PtrV),
}

/// Mathematical view of a tag binding.
pub enum TagV {
    Struct(StructV),
}

/// Mathematical view of one scope.
pub struct ScopeV {
    pub other_stack: Seq<(Seq<char>, OtherV)>,
    pub tag_stack: Seq<(Seq<char>, TagV)>,
}

impl View for Struct {
    type V = StructV;

    open spec fn view(&self) -> StructV {
        StructV {
            names: self.names@.map_values(|n: String| n@),
            struct_type: self.struct_type@,
            field_types: self.field_types@.map_values(|t: IrType| t@),
        }
    }
}

impl View for Other {
    type V = OtherV;

    open spec fn view(&self) -> OtherV {
        match self {
            Other::Variable(p) => OtherV::Variable(p@),
            Other::Type(t) => OtherV::Type(t@),
            Other::Global(p) => OtherV::Global(p@),
        }
    }
}

impl View for Tag {
    type V = TagV;

    open spec fn view(&self) -> TagV {
        match self {
            Tag::Struct(s) => TagV::Struct(s@),
        }
    }
}

/// View of a name-binding pair list.
pub open spec fn others_v(ps: Seq<(String, Other)>) -> Seq<(Seq<char>, OtherV)> {
    ps.map_values(|p: (String, Other)| (p.0@, p.1@))
}

/// View of a tag-binding pair list.
pub open spec fn tags_v(ps: Seq<(String, Tag)>) -> Seq<(Seq<char>, TagV)> {
    ps.map_values(|p: (String, Tag)| (p.0@, p.1@))
}

impl View for Scope {
    type V = ScopeV;

    open spec fn view(&self) -> ScopeV {
        ScopeV { other_stack: others_v(self.other_stack@), tag_stack: tags_v(self.tag_stack@) }
    }
}

impl View for Environment {
    type V = Seq<ScopeV>;

    open spec fn view(&self) -> Seq<ScopeV> {
        self.scopes@.map_values(|s: Scope| s@)
    }
}

/// First binding for `k` in one scope's pair list.
pub open spec fn assoc_other(ps: Seq<(Seq<char>, OtherV)>, k: Seq<char>) -> Option<OtherV>
    decreases ps.len(),
{
    if ps.len() == 0 {
        None
    } else if ps[0].0 == k {
        Some(ps[0].1)
    } else {
        assoc_other(ps.skip(1), k)
    }
}

/// First tag binding for `k` in one scope's pair list.
pub open spec fn assoc_tag(ps: Seq<(Seq<char>, TagV)>, k: Seq<char>) -> Option<TagV>
    decreases ps.len(),
{
    if ps.len() == 0 {
        None
    } else if ps[0].0 == k {
        Some(ps[0].1)
    } else {
        assoc_tag(ps.skip(1), k)
    }
}

/// Innermost-first name lookup over the scope stack.
pub open spec fn env_lookup(scopes: Seq<ScopeV>, k: Seq<char>) -> Option<OtherV>
    decreases scopes.len(),
{
    if scopes.len() == 0 {
        None
    } else {
        match assoc_other(scopes.last().other_stack, k) {
            Some(v) => Some(v),
            None => env_lookup(scopes.drop_last(), k),
        }
    }
}

/// Innermost-first tag lookup over the scope stack.
pub open spec fn env_lookup_tag(scopes: Seq<ScopeV>, k: Seq<char>) -> Option<TagV>
    decreases scopes.len(),
{
    if scopes.len() == 0 {
        None
    } else {
        match assoc_tag(scopes.last().tag_stack, k) {
            Some(v) => Some(v),
            None => env_lookup_tag(scopes.drop_last(), k),
        }
    }
}

/// A name bound in the innermost scope hides any outer binding while that
/// scope stands, and the outer binding shows again once it is popped.
pub proof fn lemma_scope_shadowing(scopes: Seq<ScopeV>, inner: ScopeV, k: Seq<char>)
    requires
        assoc_other(inner.other_stack, k) is Some,
    ensures
        env_lookup(scopes.push(inner), k) == assoc_other(inner.other_stack, k),
        env_lookup(scopes.push(inner).drop_last(), k) == env_lookup(scopes, k),
{
    assert(scopes.push(inner).last() == inner);
    assert(scopes.push(inner).drop_last() =~= scopes);
}

/// Searches one scope's pair list for `k`, front first.
fn scope_find<'a>(ps: &'a Vec<(String, Other)>, k: &str) -> (r: Option<&'a Other>)
    ensures
        match r {
            Some(v) => assoc_other(others_v(ps@), k@) == Some(v@),
            None => assoc_other(others_v(ps@), k@) is None,
        },
{
    let mut i: usize = 0;
    proof {
        assert(others_v(ps@).skip(0) =~= others_v(ps@));
    }
    while i < ps.len()
        invariant
            0 <= i <= ps@.len(),
            assoc_other(others_v(ps@), k@) == assoc_other(others_v(ps@).skip(i as int), k@),
        decreases ps@.len() - i,
    {
        proof {
            assert(others_v(ps@).skip(i as int)[0] == others_v(ps@)[i as int]);
            assert(others_v(ps@)[i as int] == (ps@[i as int].0@, ps@[i as int].1@));
        }
        if str_eq(ps[i].0.as_str(), k) {
            return Some(&ps[i].1);
        }
        proof {
            assert(others_v(ps@).skip(i as int).skip(1) =~= others_v(ps@).skip(i + 1));
        }
        i = i + 1;
    }
    proof {
        assert(others_v(ps@).skip(i as int).len() == 0);
    }
    None
}

/// Searches one scope's tag list for `k`, front first.
fn scope_find_tag<'a>(ps: &'a Vec<(String, Tag)>, k: &str) -> (r: Option<&'a Tag>)
    ensures
        match r {
            Some(v) => assoc_tag(tags_v(ps@), k@) == Some(v@),
            None => assoc_tag(tags_v(ps@), k@) is None,
        },
{
    let mut i: usize = 0;
    proof {
        assert(tags_v(ps@).skip(0) =~= tags_v(ps@));
    }
    while i < ps.len()
        invariant
            0 <= i <= ps@.len(),
            assoc_tag(tags_v(ps@), k@) == assoc_tag(tags_v(ps@).skip(i as int), k@),
        decreases ps@.len() - i,
    {
        proof {
            assert(tags_v(ps@).skip(i as int)[0] == tags_v(ps@)[i as int]);
            assert(tags_v(ps@)[i as int] == (ps@[i as int].0@, ps@[i as int].1@));
        }
        if str_eq(ps[i].0.as_str(), k) {
            return Some(&ps[i].1);
        }
        proof {
            assert(tags_v(ps@).skip(i as int).skip(1) =~= tags_v(ps@).skip(i + 1));
        }
        i = i + 1;
    }
    proof {
        assert(tags_v(ps@).skip(i as int).len() == 0);
    }
    None
}

impl Environment {
    /// An empty scope stack.
    pub fn new() -> (r: Environment)
        ensures
            r@ =~= Seq::<ScopeV>::empty(),
    {
        Environment { scopes: Vec::new() }
    }

    /// Enters a scope.
    pub fn push_scope(&mut self, scope: Scope)
        ensures
            final(self)@ =~= old(self)@.push(scope@),
    {
        self.scopes.push(scope);
        proof {
            assert(self@ =~= old(self)@.push(self.scopes@.last()@));
        }
    }

    /// Leaves the innermost scope; on an empty stack nothing changes.
    pub fn pop_scope(&mut self)
        ensures
            old(self)@.len() > 0 ==> final(self)@ =~= old(self)@.drop_last(),
            old(self)@.len() == 0 ==> final(self)@ =~= old(self)@,
    {
        let _ = self.scopes.pop();
        proof {
            if old(self)@.len() > 0 {
                assert(self@ =~= old(self)@.drop_last());
            } else {
                assert(self@ =~= old(self)@);
            }
        }
    }

    /// Binds `key` in the innermost scope; a name already bound there is a
    /// fatal redefinition and leaves the environment unchanged.
    pub fn insert_new_other(&mut self, key: String, value: Other) -> (r: Result<(), CompileError>)
        requires
            old(self)@.len() > 0,
        ensures
            final(self)@.len() == old(self)@.len(),
            match r {
                Ok(()) => assoc_other(old(self)@.last().other_stack, key@) is None && final(self)@
                    =~= old(self)@.drop_last().push(
                    ScopeV {
                        other_stack: old(self)@.last().other_stack.push((key@, value@)),
                        tag_stack: old(self)@.last().tag_stack,
                    },
                ),
                Err(e) => assoc_other(old(self)@.last().other_stack, key@) is Some && *final(self)
                    == *old(self) && e@ == ErrV::Redefinition(key@),
            },
    {
        let n = self.scopes.len();
        let taken: bool = match scope_find(&self.scopes[n - 1].other_stack, key.as_str()) {
            Some(_) => true,
            None => false,
        };
        proof {
            assert(self@[n - 1] == self.scopes@[n - 1]@);
            assert(self@.last() == self.scopes@.last()@);
        }
        if taken {
            return Err(CompileError::Redefinition(key));
        }
        self.scopes[n - 1].other_stack.push((key, value));
        proof {
            assert(others_v(self.scopes@[n - 1].other_stack@) =~= others_v(
                old(self).scopes@[n - 1].other_stack@,
            ).push((key@, value@)));
            assert(final(self)@ =~= old(self)@.drop_last().push(
                ScopeV {
                    other_stack: old(self)@.last().other_stack.push((key@, value@)),
                    tag_stack: old(self)@.last().tag_stack,
                },
            ));
        }
        Ok(())
    }

    /// Binds a tag in the innermost scope; a tag already bound there is a
    /// fatal redefinition.
    pub fn insert_new_tag(&mut self, key: String, value: Tag) -> (r: Result<(), CompileError>)
        requires
            old(self)@.len() > 0,
        ensures
            final(self)@.len() == old(self)@.len(),
            match r {
                Ok(()) => assoc_tag(old(self)@.last().tag_stack, key@) is None && final(self)@
                    =~= old(self)@.drop_last().push(
                    ScopeV {
                        other_stack: old(self)@.last().other_stack,
                        tag_stack: old(self)@.last().tag_stack.push((key@, value@)),
                    },
                ),
                Err(e) => assoc_tag(old(self)@.last().tag_stack, key@) is Some && *final(self)
                    == *old(self) && e@ == ErrV::Redefinition(key@),
            },
    {
        let n = self.scopes.len();
        let taken: bool = match scope_find_tag(&self.scopes[n - 1].tag_stack, key.as_str()) {
            Some(_) => true,
            None => false,
        };
        proof {
            assert(self@.last() == self.scopes@.last()@);
        }
        if taken {
            return Err(CompileError::Redefinition(key));
        }
        self.scopes[n - 1].tag_stack.push((key, value));
        proof {
            assert(tags_v(self.scopes@[n - 1].tag_stack@) =~= tags_v(
                old(self).scopes@[n - 1].tag_stack@,
            ).push((key@, value@)));
            assert(final(self)@ =~= old(self)@.drop_last().push(
                ScopeV {
                    other_stack: old(self)@.last().other_stack,
                    tag_stack: old(self)@.last().tag_stack.push((key@, value@)),
                },
            ));
        }
        Ok(())
    }

    /// Innermost-first lookup of a name.
    pub fn get_other<'a>(&'a self, key: &str) -> (r: Option<&'a Other>)
        ensures
            match r {
                Some(v) => env_lookup(self@, key@) == Some(v@),
                None => env_lookup(self@, key@) is None,
            },
    {
        let n = self.scopes.len();
        let mut i: usize = n;
        proof {
            assert(self@.take(n as int) =~= self@);
        }
        while i > 0
            invariant
                0 <= i <= n,
                n == self.scopes@.len(),
                env_lookup(self@, key@) == env_lookup(self@.take(i as int), key@),
            decreases i,
        {
            proof {
                assert(self@.take(i as int).last() == self.scopes@[i - 1]@);
                assert(self@.take(i as int).drop_last() =~= self@.take(i - 1));
            }
            match scope_find(&self.scopes[i - 1].other_stack, key) {
                Some(v) => {
                    return Some(v);
                },
                None => (),
            }
            i = i - 1;
        }
        None
    }

    /// Innermost-first lookup of a tag.
    pub fn get_tag<'a>(&'a self, key: &str) -> (r: Option<&'a Tag>)
        ensures
            match r {
                Some(v) => env_lookup_tag(self@, key@) == Some(v@),
                None => env_lookup_tag(self@, key@) is None,
            },
    {
        let n = self.scopes.len();
        let mut i: usize = n;
        proof {
            assert(self@.take(n as int) =~= self@);
        }
        while i > 0
            invariant
                0 <= i <= n,
                n == self.scopes@.len(),
                env_lookup_tag(self@, key@) == env_lookup_tag(self@.take(i as int), key@),
            decreases i,
        {
            proof {
                assert(self@.take(i as int).last() == self.scopes@[i - 1]@);
                assert(self@.take(i as int).drop_last() =~= self@.take(i - 1));
            }
            match scope_find_tag(&self.scopes[i - 1].tag_stack, key) {
                Some(v) => {
                    return Some(v);
                },
                None => (),
            }
            i = i - 1;
        }
        None
    }

    /// Resolves a type form to an IR type: the base resolves through the
    /// environment's type bindings, array dimensions nest inside out, and
    /// pointers wrap outermost.
    pub fn get_type_from_string(&self, value_type: &BasicType) -> (r: Result<IrType, CompileError>)
        ensures
            match r {
                Ok(t) => spec_resolve(self@, value_type@) == Ok::<IrTypeV, ErrV>(t@),
                Err(e) => spec_resolve(self@, value_type@) == Err::<IrTypeV, ErrV>(e@),
            },
        decreases value_type,
    {
        match value_type {
            BasicType::Int => self.resolve_base("int"),
            BasicType::Float => self.resolve_base("float"),
            BasicType::Struct(tag) => self.resolve_base(tag.as_str()),
            BasicType::Pointer(inner) => match self.get_type_from_string(&**inner) {
                Ok(t) => Ok(IrType::Pointer(Box::new(t))),
                Err(e) => Err(e),
            },
            BasicType::Array(inner, n) => match self.get_type_from_string(&**inner) {
                Ok(t) => Ok(IrType::Array(Box::new(t), *n)),
                Err(e) => Err(e),
            },
        }
    }

    /// Resolves one base name through the environment's type bindings.
    fn resolve_base(&self, name: &str) -> (r: Result<IrType, CompileError>)
        ensures
            match r {
                Ok(t) => spec_resolve_base(self@, name@) == Ok::<IrTypeV, ErrV>(t@),
                Err(e) => spec_resolve_base(self@, name@) == Err::<IrTypeV, ErrV>(e@),
            },
    {
        match self.get_other(name) {
            Some(Other::Type(t)) => Ok(t.dup()),
            Some(_) => Err(CompileError::NotAType(name.to_owned())),
            None => Err(CompileError::UndeclaredIdentifier(name.to_owned())),
        }
    }
}

/// Resolution of a base type name through the environment.
pub open spec fn spec_resolve_base(scopes: Seq<ScopeV>, name: Seq<char>) -> Result<IrTypeV, ErrV> {
    match env_lookup(scopes, name) {
        Some(OtherV::Type(t)) => Ok(t),
        Some(_) => Err(ErrV::NotAType(name)),
        None => Err(ErrV::UndeclaredIdentifier(name)),
    }
}

/// Resolution of a type form to an IR type.
pub open spec fn spec_resolve(scopes: Seq<ScopeV>, t: BasicTypeV) -> Result<IrTypeV, ErrV>
    decreases t,
{
    match t {
        BasicTypeV::Int => spec_resolve_base(scopes, "int"@),
        BasicTypeV::Float => spec_resolve_base(scopes, "float"@),
        BasicTypeV::Struct(tag) => spec_resolve_base(scopes, tag),
        BasicTypeV::Pointer(inner) => match spec_resolve(scopes, *inner) {
            Ok(b) => Ok(IrTypeV::Pointer(Box::new(b))),
            Err(e) => Err(e),
        },
        BasicTypeV::Array(inner, n) => match spec_resolve(scopes, *inner) {
            Ok(b) => Ok(IrTypeV::Array(Box::new(b), n)),
            Err(e) => Err(e),
        },
    }
}

impl Scope {
    /// A fresh scope pre-seeded with the primitive type names.
    pub fn new() -> (r: Scope)
        ensures
            r@.other_stack =~= seq![
                ("int"@, OtherV::Type(IrTypeV::I32)),
                ("char"@, OtherV::Type(IrTypeV::I8)),
                ("float"@, OtherV::Type(IrTypeV::F32)),
            ],
            r@.tag_stack =~= Seq::<(Seq<char>, TagV)>::empty(),
    {
        let mut other_stack: Vec<(String, Other)> = Vec::new();
        other_stack.push((String::from_str("int"), Other::Type(IrType::I32)));
        other_stack.push((String::from_str("char"), Other::Type(IrType::I8)));
        other_stack.push((String::from_str("float"), Other::Type(IrType::F32)));
        Scope { other_stack, tag_stack: Vec::new() }
    }
}

} // verus!
