//! Where references point: the provenance of places, and of the references that functions return.

use vstd::prelude::*;

use crate::borrow::{IndexTemplate, RefTemplate, TemplateBase, TemplateProjection};
use crate::errors::Message;
use crate::hir::{
    dup_provenance, field_types, types_of_fields, ExprKind, HirEnumVariant, HirExpr, HirFunc,
    HirParam, HirStmt, HirType, IntrinsicKind, ProvenanceAnnotation, ProvenancePathSegment,
    ProvenanceRoot, RefKind, StmtKind, StrId,
};
use crate::list::{find, lookup, update, updated, Cons, List, Nil, Table};
use crate::program::ModuleGraph;
use crate::type_checker::{Templates, TypeChecker};
use crate::type_context::TypeContext;

verus! {

pub open spec fn projected(
    base: Option<ProvenanceAnnotation>,
    segment: ProvenancePathSegment,
) -> Option<ProvenanceAnnotation> {
    match base {
        Some(annotation) => Some(
            ProvenanceAnnotation { root: annotation.root, path: annotation.path.snoc(segment) },
        ),
        None => None,
    }
}

/// The root of a place and the projections that lead from it. An index does not leave the array.
pub open spec fn provenance_of(graph: ModuleGraph, expr: HirExpr) -> Option<ProvenanceAnnotation>
    decreases expr,
{
    match expr.kind {
        ExprKind::Ident(name, _) => Some(
            ProvenanceAnnotation { root: ProvenanceRoot::Var(name), path: Nil },
        ),
        ExprKind::This { .. } => Some(
            ProvenanceAnnotation { root: ProvenanceRoot::ThisRoot, path: Nil },
        ),
        ExprKind::FieldAccess { object, field, .. } | ExprKind::Get { object, field, .. } => {
            projected(provenance_of(graph, *object), ProvenancePathSegment::Field(field))
        },
        ExprKind::Deref { expr: inner, .. } => projected(
            provenance_of(graph, *inner),
            ProvenancePathSegment::Deref,
        ),
        ExprKind::Index { object, .. } => provenance_of(graph, *object),
        ExprKind::ModuleAccess(access) => match graph.module_at(access.path) {
            None => None,
            Some(module_idx) => if graph.constants.has((module_idx, access.member)) {
                Some(
                    ProvenanceAnnotation {
                        root: ProvenanceRoot::Global { module_idx, name: access.member },
                        path: Nil,
                    },
                )
            } else {
                None
            },
        },
        _ => None,
    }
}

/// The places of the named parameters among themselves.
pub open spec fn indexed(params: List<HirParam>, next: usize, known: Table<StrId, usize>) -> Table<
    StrId,
    usize,
>
    decreases params,
{
    match params {
        Nil => known,
        Cons(param, rest) => match *param {
            HirParam::Normal { name, .. } => indexed(
                *rest,
                crate::type_checker::after_usize(next),
                updated(known, name, next),
            ),
            HirParam::This { .. } => indexed(*rest, next, known),
        },
    }
}

pub open spec fn takes_this(params: List<HirParam>) -> bool
    decreases params,
{
    match params {
        Nil => false,
        Cons(param, rest) => *param is This || takes_this(*rest),
    }
}

/// A path from a parameter or `this`.
pub type TemplatePath = (TemplateBase, List<TemplateProjection>);

pub open spec fn extended_template(
    base: Option<TemplatePath>,
    projection: TemplateProjection,
) -> Option<TemplatePath> {
    match base {
        Some((root, projections)) => Some((root, projections.snoc(projection))),
        None => None,
    }
}

pub open spec fn index_template(index: HirExpr, params: Table<StrId, usize>) -> IndexTemplate {
    match index.kind {
        ExprKind::Number(value, _) => IndexTemplate::Const(value),
        ExprKind::Ident(name, _) => match lookup(params, name) {
            Some(i) => IndexTemplate::Param(i),
            None => IndexTemplate::Opaque,
        },
        _ => IndexTemplate::Opaque,
    }
}

/// The path from a parameter or `this` that an expression is.
pub open spec fn template_of(
    expr: HirExpr,
    params: Table<StrId, usize>,
    has_this: bool,
) -> Option<TemplatePath>
    decreases expr,
{
    match expr.kind {
        ExprKind::Ident(name, _) => match lookup(params, name) {
            Some(i) => Some((TemplateBase::Param(i), Nil)),
            None => None,
        },
        ExprKind::This { .. } => if has_this {
            Some((TemplateBase::This, Nil))
        } else {
            None
        },
        ExprKind::FieldAccess { object, field, .. } | ExprKind::Get { object, field, .. } => {
            extended_template(
                template_of(*object, params, has_this),
                TemplateProjection::Field(field),
            )
        },
        ExprKind::Deref { expr: inner, .. } => extended_template(
            template_of(*inner, params, has_this),
            TemplateProjection::Deref,
        ),
        ExprKind::Index { object, index, .. } => extended_template(
            template_of(*object, params, has_this),
            TemplateProjection::Index(index_template(*index, params)),
        ),
        _ => None,
    }
}

/// The place that a returned expression refers to, and how.
pub open spec fn returned_place(expr: HirExpr) -> Option<(HirExpr, RefKind)> {
    match expr.kind {
        ExprKind::Ref { expr: inner, ref_kind, .. } => Some((*inner, ref_kind)),
        ExprKind::Intrinsic { kind, args, .. } => match args {
            Cons(first, more) => if kind == IntrinsicKind::Own && more.count() == 1 {
                Some((*first, RefKind::Unique))
            } else {
                None
            },
            Nil => None,
        },
        _ => None,
    }
}

/// The expression that a body consisting of one return gives back.
pub open spec fn sole_return(body: HirStmt) -> Option<HirExpr> {
    match body.kind {
        StmtKind::Block { body: stmts, .. } => match stmts {
            Cons(stmt, rest) => match stmt.kind {
                StmtKind::Return(Some(value), _) => if *rest is Nil {
                    Some(*value)
                } else {
                    None
                },
                _ => None,
            },
            Nil => None,
        },
        _ => None,
    }
}

/// What the reference that a function returns points to, where its body is one return.
pub open spec fn ref_template(func: HirFunc) -> RefTemplate {
    match (func.params, func.body) {
        (Some(params), Some(body)) => match sole_return(*body) {
            Some(value) => match returned_place(value) {
                Some((place, ref_kind)) => match template_of(
                    place,
                    indexed(params, 0, Nil),
                    takes_this(params),
                ) {
                    Some((base, projections)) => RefTemplate::Path { base, ref_kind, projections },
                    None => RefTemplate::Opaque,
                },
                None => RefTemplate::Opaque,
            },
            None => RefTemplate::Opaque,
        },
        _ => RefTemplate::Opaque,
    }
}

/// The name of a named parameter, by its place among the named ones.
pub open spec fn normal_name(params: List<HirParam>, index: usize) -> Option<StrId>
    decreases params,
{
    match params {
        Nil => None,
        Cons(param, rest) => match *param {
            HirParam::Normal { name, .. } => if index == 0 {
                Some(name)
            } else {
                normal_name(*rest, (index - 1) as usize)
            },
            HirParam::This { .. } => normal_name(*rest, index),
        },
    }
}

/// Whether a declared root is what the returned reference starts from.
pub open spec fn root_matches(func: HirFunc, root: ProvenanceRoot, base: TemplateBase) -> bool {
    match (root, base) {
        (ProvenanceRoot::Var(name), TemplateBase::Param(index)) => match func.params {
            Some(params) => normal_name(params, index) == Some(name),
            None => false,
        },
        (ProvenanceRoot::ThisRoot, TemplateBase::This) => true,
        _ => false,
    }
}

/// The expression that a template starts from in a call.
pub open spec fn template_start(
    base: TemplateBase,
    receiver: Option<HirExpr>,
    args: List<HirExpr>,
) -> Option<HirExpr> {
    match base {
        TemplateBase::This => receiver,
        TemplateBase::Param(i) => match args.nth(i) {
            Some(arg) => Some(
                match arg.kind {
                    ExprKind::Ref { expr: inner, .. } => *inner,
                    _ => arg,
                },
            ),
            None => None,
        },
    }
}

pub open spec fn along(
    path: List<ProvenancePathSegment>,
    projections: List<TemplateProjection>,
) -> List<ProvenancePathSegment>
    decreases projections,
{
    match projections {
        Nil => path,
        Cons(projection, rest) => along(
            match *projection {
                TemplateProjection::Field(field) => path.snoc(ProvenancePathSegment::Field(field)),
                TemplateProjection::Deref => path.snoc(ProvenancePathSegment::Deref),
                TemplateProjection::Index(_) => path,
            },
            *rest,
        ),
    }
}

pub open spec fn template_provenance(
    graph: ModuleGraph,
    template: RefTemplate,
    receiver: Option<HirExpr>,
    args: List<HirExpr>,
) -> Option<ProvenanceAnnotation> {
    match template {
        RefTemplate::Opaque => None,
        RefTemplate::Path { base, projections, .. } => match template_start(base, receiver, args) {
            None => None,
            Some(start) => match provenance_of(graph, start) {
                None => None,
                Some(annotation) => Some(
                    ProvenanceAnnotation {
                        root: annotation.root,
                        path: along(annotation.path, projections),
                    },
                ),
            },
        },
    }
}

/// Whether a value of a type may refer to something else. The definitions of structs and enums are
/// unfolded at most `fuel` deep, which reaches the leaves unless a type contains itself.
pub open spec fn may_alias(context: TypeContext, ty: HirType, fuel: nat) -> bool
    decreases fuel, ty,
{
    match ty {
        HirType::Ref { .. } | HirType::SafePointer { .. } | HirType::UnsafePointer { .. }
        | HirType::OwnedPointer { .. } => true,
        HirType::Nullable(inner) => may_alias(context, *inner, fuel),
        HirType::Array(inner, _) => may_alias(context, *inner, fuel),
        HirType::Tuple(elems) => any_may_alias(context, elems, fuel),
        HirType::Struct { name, .. } => match lookup(context.structs, name) {
            Some(def) => fuel == 0 || any_may_alias(
                context,
                types_of_fields(def.fields),
                (fuel - 1) as nat,
            ),
            None => true,
        },
        HirType::Enum { name, .. } => match lookup(context.enums, name) {
            Some(def) => fuel == 0 || any_may_alias(
                context,
                types_of_variants(def.variants),
                (fuel - 1) as nat,
            ),
            None => true,
        },
        HirType::Dyn { .. } | HirType::DynInterface(..) => true,
        _ => false,
    }
}

pub open spec fn any_may_alias(context: TypeContext, types: List<HirType>, fuel: nat) -> bool
    decreases fuel, types,
{
    match types {
        Nil => false,
        Cons(ty, rest) => may_alias(context, *ty, fuel) || any_may_alias(context, *rest, fuel),
    }
}

/// The types of all fields of a list of variants.
pub open spec fn types_of_variants(variants: List<HirEnumVariant>) -> List<HirType>
    decreases variants,
{
    match variants {
        Nil => Nil,
        Cons(variant, rest) => types_of_fields(variant.fields).then_all(types_of_variants(*rest)),
    }
}

fn variant_types(variants: &List<HirEnumVariant>) -> (types: List<HirType>)
    ensures
        types == types_of_variants(*variants),
    decreases variants,
{
    match variants {
        Nil => Nil,
        Cons(variant, rest) => field_types(&variant.fields).append(&variant_types(rest)),
    }
}

/// The number of declared structs and enums, stopping at the largest `usize`.
pub open spec fn definition_count(context: TypeContext) -> usize {
    if context.structs.count() + context.enums.count() > usize::MAX {
        usize::MAX
    } else {
        (context.structs.count() + context.enums.count()) as usize
    }
}

pub fn index_params(params: &List<HirParam>, next: usize, known: Table<StrId, usize>) -> (result: Table<
    StrId,
    usize,
>)
    ensures
        result == indexed(*params, next, known),
    decreases params,
{
    match params {
        Nil => known,
        Cons(param, rest) => match &**param {
            HirParam::Normal { name, .. } => index_params(
                rest,
                crate::type_checker::next_usize(next),
                update(&known, *name, next),
            ),
            HirParam::This { .. } => index_params(rest, next, known),
        },
    }
}

pub fn has_this_param(params: &List<HirParam>) -> (yes: bool)
    ensures
        yes == takes_this(*params),
    decreases params,
{
    match params {
        Nil => false,
        Cons(param, rest) => matches!(**param, HirParam::This { .. }) || has_this_param(rest),
    }
}

fn extend_template(base: Option<TemplatePath>, projection: TemplateProjection) -> (result: Option<
    TemplatePath,
>)
    ensures
        result == extended_template(base, projection),
{
    match base {
        Some((root, projections)) => Some((root, projections.push(projection))),
        None => None,
    }
}

fn find_returned_place<'e>(expr: &'e HirExpr) -> (place: Option<(&'e HirExpr, RefKind)>)
    ensures
        place == match returned_place(*expr) {
            Some((inner, kind)) => Some((&inner, kind)),
            None => None,
        },
{
    match &expr.kind {
        ExprKind::Ref { expr: inner, ref_kind, .. } => Some((inner, *ref_kind)),
        ExprKind::Intrinsic { kind, args, .. } => match args {
            Cons(first, more) => if *kind == IntrinsicKind::Own && more.len() == 1 {
                Some((first, RefKind::Unique))
            } else {
                None
            },
            Nil => None,
        },
        _ => None,
    }
}

fn find_sole_return<'s>(body: &'s HirStmt) -> (value: Option<&'s HirExpr>)
    ensures
        value == match sole_return(*body) {
            Some(expr) => Some(&expr),
            None => None,
        },
{
    match &body.kind {
        StmtKind::Block { body: stmts, .. } => match stmts {
            Cons(stmt, rest) => match &stmt.kind {
                StmtKind::Return(Some(value), _) => if rest.is_empty() {
                    Some(value)
                } else {
                    None
                },
                _ => None,
            },
            Nil => None,
        },
        _ => None,
    }
}

fn find_normal_name(params: &List<HirParam>, index: usize) -> (name: Option<StrId>)
    ensures
        name == normal_name(*params, index),
    decreases params,
{
    match params {
        Nil => None,
        Cons(param, rest) => match &**param {
            HirParam::Normal { name, .. } => if index == 0 {
                Some(*name)
            } else {
                find_normal_name(rest, index - 1)
            },
            HirParam::This { .. } => find_normal_name(rest, index),
        },
    }
}

pub fn find_template_start<'e>(
    base: TemplateBase,
    receiver: Option<&'e HirExpr>,
    args: &'e List<HirExpr>,
) -> (start: Option<&'e HirExpr>)
    ensures
        start == match template_start(
            base,
            match receiver {
                Some(expr) => Some(*expr),
                None => None,
            },
            *args,
        ) {
            Some(expr) => Some(&expr),
            None => None,
        },
{
    match base {
        TemplateBase::This => receiver,
        TemplateBase::Param(i) => match args.get(i) {
            Some(arg) => match &arg.kind {
                ExprKind::Ref { expr: inner, .. } => Some(inner),
                _ => Some(arg),
            },
            None => None,
        },
    }
}

fn follow(path: List<ProvenancePathSegment>, projections: &List<TemplateProjection>) -> (result: List<
    ProvenancePathSegment,
>)
    ensures
        result == along(path, *projections),
    decreases projections,
{
    match projections {
        Nil => path,
        Cons(projection, rest) => {
            let next = match **projection {
                TemplateProjection::Field(field) => path.push(ProvenancePathSegment::Field(field)),
                TemplateProjection::Deref => path.push(ProvenancePathSegment::Deref),
                TemplateProjection::Index(_) => path,
            };
            follow(next, rest)
        },
    }
}

fn project(base: Option<ProvenanceAnnotation>, segment: ProvenancePathSegment) -> (result: Option<
    ProvenanceAnnotation,
>)
    ensures
        result == projected(base, segment),
{
    match base {
        Some(annotation) => Some(
            ProvenanceAnnotation { root: annotation.root, path: annotation.path.push(segment) },
        ),
        None => None,
    }
}

impl TypeChecker {
    pub fn infer_provenance(&self, expr: &HirExpr) -> (provenance: Option<ProvenanceAnnotation>)
        ensures
            provenance == provenance_of(self.program.graph, *expr),
        decreases expr,
    {
        match &expr.kind {
            ExprKind::Ident(name, _) => Some(
                ProvenanceAnnotation { root: ProvenanceRoot::Var(*name), path: Nil },
            ),
            ExprKind::This { .. } => Some(
                ProvenanceAnnotation { root: ProvenanceRoot::ThisRoot, path: Nil },
            ),
            ExprKind::FieldAccess { object, field, .. } | ExprKind::Get { object, field, .. } => {
                project(self.infer_provenance(object), ProvenancePathSegment::Field(*field))
            },
            ExprKind::Deref { expr: inner, .. } => project(
                self.infer_provenance(inner),
                ProvenancePathSegment::Deref,
            ),
            ExprKind::Index { object, .. } => self.infer_provenance(object),
            ExprKind::ModuleAccess(access) => match self.program.graph.resolve_module_path(
                &access.path,
            ) {
                None => None,
                Some(module_idx) => if self.program.graph.is_global_const(
                    module_idx,
                    access.member,
                ) {
                    Some(
                        ProvenanceAnnotation {
                            root: ProvenanceRoot::Global { module_idx, name: access.member },
                            path: Nil,
                        },
                    )
                } else {
                    None
                },
            },
            _ => None,
        }
    }

    pub fn extend_provenance(base: &Option<ProvenanceAnnotation>, field: StrId) -> (result: Option<
        ProvenanceAnnotation,
    >)
        ensures
            result == projected(*base, ProvenancePathSegment::Field(field)),
    {
        project(dup_provenance(base), ProvenancePathSegment::Field(field))
    }

    pub fn expr_to_template(expr: &HirExpr, param_index: &Table<StrId, usize>, has_this: bool) -> (template:
        Option<TemplatePath>)
        ensures
            template == template_of(*expr, *param_index, has_this),
        decreases expr,
    {
        match &expr.kind {
            ExprKind::Ident(name, _) => match find(param_index, name) {
                Some(i) => Some((TemplateBase::Param(*i), Nil)),
                None => None,
            },
            ExprKind::This { .. } => if has_this {
                Some((TemplateBase::This, Nil))
            } else {
                None
            },
            ExprKind::FieldAccess { object, field, .. } | ExprKind::Get { object, field, .. } => {
                extend_template(
                    Self::expr_to_template(object, param_index, has_this),
                    TemplateProjection::Field(*field),
                )
            },
            ExprKind::Deref { expr: inner, .. } => extend_template(
                Self::expr_to_template(inner, param_index, has_this),
                TemplateProjection::Deref,
            ),
            ExprKind::Index { object, index, .. } => {
                let at = match &index.kind {
                    ExprKind::Number(value, _) => IndexTemplate::Const(*value),
                    ExprKind::Ident(name, _) => match find(param_index, name) {
                        Some(i) => IndexTemplate::Param(*i),
                        None => IndexTemplate::Opaque,
                    },
                    _ => IndexTemplate::Opaque,
                };
                extend_template(
                    Self::expr_to_template(object, param_index, has_this),
                    TemplateProjection::Index(at),
                )
            },
            _ => None,
        }
    }

    pub fn build_ref_template(func: &HirFunc) -> (template: RefTemplate)
        ensures
            template == ref_template(*func),
    {
        match (&func.params, &func.body) {
            (Some(params), Some(body)) => match find_sole_return(body) {
                Some(value) => match find_returned_place(value) {
                    Some((place, ref_kind)) => match Self::expr_to_template(
                        place,
                        &index_params(params, 0, Nil),
                        has_this_param(params),
                    ) {
                        Some((base, projections)) => RefTemplate::Path {
                            base,
                            ref_kind,
                            projections,
                        },
                        None => RefTemplate::Opaque,
                    },
                    None => RefTemplate::Opaque,
                },
                None => RefTemplate::Opaque,
            },
            _ => RefTemplate::Opaque,
        }
    }

    /// What a function's result refers to, remembered from the first time it is asked for.
    pub open spec fn ref_template_of(self, func: HirFunc) -> RefTemplate {
        match lookup(self.templates.refs, func.name) {
            Some(known) => known,
            None => ref_template(func),
        }
    }

    pub open spec fn after_ref_template(self, func: HirFunc) -> TypeChecker {
        TypeChecker {
            templates: Templates {
                refs: match lookup(self.templates.refs, func.name) {
                    Some(_) => self.templates.refs,
                    None => updated(self.templates.refs, func.name, ref_template(func)),
                },
                ..self.templates
            },
            ..self
        }
    }

    pub fn analyze_ref_template(&mut self, func: &HirFunc) -> (template: RefTemplate)
        ensures
            *final(self) == old(self).after_ref_template(*func),
            template == old(self).ref_template_of(*func),
            final(self).settled_in_scope(*old(self)),
    {
        match find(&self.templates.refs, &func.name) {
            Some(known) => known.dup(),
            None => {
                let template = Self::build_ref_template(func);
                self.templates.refs = update(&self.templates.refs, func.name, template.dup());
                template
            },
        }
    }

    pub open spec fn after_return_provenance(self, func: HirFunc) -> TypeChecker {
        match func.return_type {
            Some(HirType::Ref { provenance: Some(declared), .. }) => match ref_template(func) {
                RefTemplate::Opaque => self.said(
                    Message::ProvenanceNotProjection { provenance: declared },
                ),
                RefTemplate::Path { base, .. } => if root_matches(func, declared.root, base) {
                    self
                } else {
                    self.said(Message::ProvenanceRootMismatch { provenance: declared })
                },
            },
            _ => self,
        }
    }

    /// A declared provenance must be the root of the reference that the body returns.
    pub fn check_return_provenance(&mut self, func: &HirFunc)
        ensures
            *final(self) == old(self).after_return_provenance(*func),
            final(self).settled_in_scope(*old(self)),
    {
        match &func.return_type {
            Some(HirType::Ref { provenance: Some(declared), .. }) => {
                match Self::build_ref_template(func) {
                    RefTemplate::Opaque => self.say(
                        Message::ProvenanceNotProjection { provenance: declared.dup() },
                    ),
                    RefTemplate::Path { base, .. } => {
                        let matches: bool = match (declared.root, base) {
                            (ProvenanceRoot::Var(name), TemplateBase::Param(index)) => {
                                match &func.params {
                                    Some(params) => match find_normal_name(params, index) {
                                        Some(found) => found == name,
                                        None => false,
                                    },
                                    None => false,
                                }
                            },
                            (ProvenanceRoot::ThisRoot, TemplateBase::This) => true,
                            _ => false,
                        };
                        if !matches {
                            self.say(
                                Message::ProvenanceRootMismatch { provenance: declared.dup() },
                            );
                        }
                    },
                }
            },
            _ => {},
        }
    }

    pub fn provenance_from_template(
        &self,
        template: &RefTemplate,
        receiver: Option<&HirExpr>,
        args: &List<HirExpr>,
    ) -> (provenance: Option<ProvenanceAnnotation>)
        ensures
            provenance == template_provenance(
                self.program.graph,
                *template,
                match receiver {
                    Some(expr) => Some(*expr),
                    None => None,
                },
                *args,
            ),
    {
        match template {
            RefTemplate::Opaque => None,
            RefTemplate::Path { base, projections, .. } => match find_template_start(
                *base,
                receiver,
                args,
            ) {
                None => None,
                Some(start) => match self.infer_provenance(start) {
                    None => None,
                    Some(annotation) => Some(
                        ProvenanceAnnotation {
                            root: annotation.root,
                            path: follow(annotation.path, projections),
                        },
                    ),
                },
            },
        }
    }

    fn may_alias_within(&self, ty: &HirType, fuel: usize) -> (yes: bool)
        ensures
            yes == may_alias(self.context, *ty, fuel as nat),
        decreases fuel, ty,
    {
        match ty {
            HirType::Ref { .. } | HirType::SafePointer { .. } | HirType::UnsafePointer { .. }
            | HirType::OwnedPointer { .. } => true,
            HirType::Nullable(inner) => self.may_alias_within(inner, fuel),
            HirType::Array(inner, _) => self.may_alias_within(inner, fuel),
            HirType::Tuple(elems) => self.any_may_alias_within(elems, fuel),
            HirType::Struct { name, .. } => match self.context.get_struct(*name) {
                Some(def) => fuel == 0 || self.any_may_alias_within(
                    &field_types(&def.fields),
                    fuel - 1,
                ),
                None => true,
            },
            HirType::Enum { name, .. } => match self.context.get_enum(*name) {
                Some(def) => fuel == 0 || self.any_may_alias_within(
                    &variant_types(&def.variants),
                    fuel - 1,
                ),
                None => true,
            },
            HirType::Dyn { .. } | HirType::DynInterface(..) => true,
            _ => false,
        }
    }

    fn any_may_alias_within(&self, types: &List<HirType>, fuel: usize) -> (yes: bool)
        ensures
            yes == any_may_alias(self.context, *types, fuel as nat),
        decreases fuel, types,
    {
        match types {
            Nil => false,
            Cons(ty, rest) => self.may_alias_within(ty, fuel) || self.any_may_alias_within(
                rest,
                fuel,
            ),
        }
    }

    pub open spec fn aliases(self, ty: HirType) -> bool {
        may_alias(self.context, ty, definition_count(self.context) as nat)
    }

    pub fn return_type_may_alias(&self, ty: &HirType) -> (yes: bool)
        ensures
            yes == self.aliases(*ty),
    {
        let structs: usize = self.context.structs.len();
        let enums: usize = self.context.enums.len();
        let fuel: usize = if structs > usize::MAX - enums {
            usize::MAX
        } else {
            structs + enums
        };
        self.may_alias_within(ty, fuel)
    }
}

} // verus!
