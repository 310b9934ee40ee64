//! What a function reads of its parameters.

use vstd::prelude::*;

use crate::borrow::{ReadTemplate, TemplateBase, TemplateProjection};
use crate::list::{Cons, List, Nil};
use crate::read_templates::{any_touches, read_recorded, touches, touches_contents};

verus! {

proof fn replaced_in_place<T>(list: List<T>, index: usize, value: T, other: usize)
    ensures
        list.with_nth(index, value).nth(other) == if index == other && list.nth(index) is Some {
            Some(value)
        } else {
            list.nth(other)
        },
    decreases list,
{
    match list {
        Nil => {},
        Cons(_, _) => if index > 0 && other > 0 {
            replaced_in_place(list.rest(), (index - 1) as usize, value, (other - 1) as usize);
        },
    }
}

proof fn some_projection_touches(projections: List<TemplateProjection>)
    ensures
        touches(projections) == exists|projection: TemplateProjection| #[trigger]
            projections.has(projection) && (projection is Index || projection is Deref),
    decreases projections,
{
    match projections {
        Nil => {
            reveal_with_fuel(List::has, 2);
        },
        Cons(_, _) => {
            let rest = projections.rest();
            some_projection_touches(rest);
            assert(projections.has(projections.head()));
            if touches(rest) {
                let projection = choose|projection: TemplateProjection| #[trigger]
                    rest.has(projection) && (projection is Index || projection is Deref);
                assert(projections.has(projection));
            }
            if exists|projection: TemplateProjection| #[trigger]
                projections.has(projection) && (projection is Index || projection is Deref) {
                let projection = choose|projection: TemplateProjection| #[trigger]
                    projections.has(projection) && (projection is Index || projection is Deref);
                assert(projection == projections.head() || rest.has(projection));
            }
        },
    }
}

proof fn one_more_path(paths: List<List<TemplateProjection>>, path: List<TemplateProjection>)
    ensures
        any_touches(paths.snoc(path)) == (any_touches(paths) || touches(path)),
    decreases paths,
{
    match paths {
        Nil => {
            reveal_with_fuel(any_touches, 3);
        },
        Cons(_, _) => one_more_path(paths.rest(), path),
    }
}

/// A read is noted of the parameter that it starts from and of no other. A read of the whole
/// parameter, or of something that it leads to or holds, reads its contents; and what was read stays
/// read.
pub proof fn reads_are_noted_of_their_parameter(
    templates: List<ReadTemplate>,
    index: usize,
    projections: List<TemplateProjection>,
    other: usize,
)
    ensures
        ({
            let after = read_recorded(TemplateBase::Param(index), projections, templates);
            match (templates.nth(other), after.nth(other)) {
                (Some(before), Some(now)) => {
                    &&& other != index ==> now == before
                    &&& touches_contents(before) ==> touches_contents(now)
                    &&& other == index ==> (touches_contents(now) <==> touches_contents(before)
                        || projections is Nil || exists|projection: TemplateProjection| #[trigger]
                        projections.has(projection) && (projection is Index || projection is Deref))
                },
                (None, None) => true,
                _ => false,
            }
        }),
        read_recorded(TemplateBase::This, projections, templates) == templates,
{
    some_projection_touches(projections);
    if let Some(template) = templates.nth(index) {
        replaced_in_place(templates, index, ReadTemplate::Opaque, other);
        if let ReadTemplate::Paths(paths) = template {
            replaced_in_place(
                templates,
                index,
                ReadTemplate::Paths(paths.snoc(projections)),
                other,
            );
            one_more_path(paths, projections);
        }
    }
}

} // verus!
