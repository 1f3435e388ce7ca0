//! The partial form of a curve.

use crate::geometry::SurfacePath;
use crate::objects::{next, Curve, Objects, Stored, Surface};
use crate::partial::global_edge::PartialGlobalCurve;
use crate::partial::maybe_partial::{
    merge_options, options_mergeable, options_merged, MaybePartial, PartialObject,
};
use crate::storage::Handle;
use crate::validation::ValidationError;
use vstd::prelude::*;

verus! {

/// A partial [`Curve`].
#[derive(Clone, Copy, Debug, PartialEq, Eq)]
pub struct PartialCurve {
    /// The path that defines the curve.
    pub path: Option<SurfacePath>,
    /// The surface that the curve is defined in.
    pub surface: Option<Handle<Surface>>,
    /// The global form of the curve.
    pub global_form: Option<MaybePartial<PartialGlobalCurve>>,
}

impl PartialCurve {
    /// The partial curve of which nothing is known.
    pub fn new() -> (curve: PartialCurve)
        ensures
            curve == (PartialCurve { path: None, surface: None, global_form: None }),
    {
        PartialCurve { path: None, surface: None, global_form: None }
    }

    /// The partial form of a full curve: all of it is known.
    pub fn from_full(curve: &Curve) -> (partial: PartialCurve)
        ensures
            partial == (PartialCurve {
                path: Some(curve.path),
                surface: Some(curve.surface),
                global_form: Some(MaybePartial::Full(curve.global_form)),
            }),
    {
        PartialCurve {
            path: Some(curve.path),
            surface: Some(curve.surface),
            global_form: Some(MaybePartial::Full(curve.global_form)),
        }
    }

    /// Provide a path for the partial curve, if one is given.
    pub fn with_path(self, path: Option<SurfacePath>) -> (curve: PartialCurve)
        ensures
            curve == (PartialCurve {
                path: if path is Some {
                    path
                } else {
                    self.path
                },
                ..self
            }),
    {
        let mut curve = self;
        if let Some(path) = path {
            curve.path = Some(path);
        }
        curve
    }

    /// Provide a surface for the partial curve, if one is given.
    pub fn with_surface(self, surface: Option<Handle<Surface>>) -> (curve: PartialCurve)
        ensures
            curve == (PartialCurve {
                surface: if surface is Some {
                    surface
                } else {
                    self.surface
                },
                ..self
            }),
    {
        let mut curve = self;
        if let Some(surface) = surface {
            curve.surface = Some(surface);
        }
        curve
    }

    /// Provide a global form for the partial curve, if one is given.
    pub fn with_global_form(self, global_form: Option<MaybePartial<PartialGlobalCurve>>) -> (curve:
        PartialCurve)
        ensures
            curve == (PartialCurve {
                global_form: if global_form is Some {
                    global_form
                } else {
                    self.global_form
                },
                ..self
            }),
    {
        let mut curve = self;
        if let Some(global_form) = global_form {
            curve.global_form = Some(global_form);
        }
        curve
    }

    /// The global form that the curve is built with: the one it has, or a
    /// new one.
    pub open spec fn global_form_or_new(self) -> MaybePartial<PartialGlobalCurve> {
        match self.global_form {
            Some(global_form) => global_form,
            None => MaybePartial::Partial(PartialGlobalCurve),
        }
    }
}

impl PartialObject for PartialCurve {
    type Full = Curve;

    open spec fn mergeable(self, other: Self) -> bool {
        &&& options_mergeable(self.path, other.path)
        &&& options_mergeable(self.surface, other.surface)
        &&& options_mergeable(self.global_form, other.global_form)
    }

    open spec fn merged(self, other: Self) -> Self {
        PartialCurve {
            path: options_merged(self.path, other.path),
            surface: options_merged(self.surface, other.surface),
            global_form: options_merged(self.global_form, other.global_form),
        }
    }

    open spec fn buildable(self) -> bool {
        &&& self.path is Some
        &&& self.surface is Some
        &&& self.global_form_or_new().buildable()
    }

    open spec fn built(self, stored: Stored) -> (Stored, Result<Handle<Curve>, ValidationError>) {
        let (after, global_form) = self.global_form_or_new().full(stored);
        if global_form is Err {
            (after, Err(global_form->Err_0))
        } else {
            let curve = Curve {
                path: self.path.unwrap(),
                surface: self.surface.unwrap(),
                global_form: global_form->Ok_0,
            };
            let handle = next(after.curves, curve);
            (Stored { curves: after.curves.push(handle), ..after }, Ok(handle))
        }
    }

    fn merge_with(self, other: Self) -> (merged: Self) {
        PartialCurve {
            path: merge_options(self.path, other.path),
            surface: merge_options(self.surface, other.surface),
            global_form: merge_options(self.global_form, other.global_form),
        }
    }

    fn build(self, objects: &mut Objects) -> (result: Result<Handle<Curve>, ValidationError>) {
        let path = self.path.unwrap();
        let surface = self.surface.unwrap();
        let global_form = match self.global_form {
            Some(global_form) => global_form,
            None => MaybePartial::Partial(PartialGlobalCurve),
        };
        let global_form = match global_form.into_full(objects) {
            Ok(global_form) => global_form,
            Err(err) => {
                return Err(err);
            },
        };
        Ok(objects.curves.insert(Curve::new(surface, path, global_form)))
    }
}

impl MaybePartial<PartialCurve> {
    /// The global form of the curve, as far as it is known.
    pub open spec fn global(self) -> Option<MaybePartial<PartialGlobalCurve>> {
        match self {
            MaybePartial::Full(curve) => Some(MaybePartial::Full(curve.object.global_form)),
            MaybePartial::Partial(partial) => partial.global_form,
        }
    }

    /// Access the global form of the curve.
    pub fn global_form(&self) -> (global_form: Option<MaybePartial<PartialGlobalCurve>>)
        ensures
            global_form == self.global(),
    {
        match self {
            MaybePartial::Full(curve) => Some(MaybePartial::Full(curve.object.global_form)),
            MaybePartial::Partial(partial) => partial.global_form,
        }
    }

    /// The curve on the given surface: a full curve stays as it is.
    pub open spec fn on_surface(self, surface: Handle<Surface>) -> MaybePartial<PartialCurve> {
        match self {
            MaybePartial::Full(curve) => self,
            MaybePartial::Partial(partial) => MaybePartial::Partial(
                PartialCurve { surface: Some(surface), ..partial },
            ),
        }
    }

    /// Puts a partial curve on the given surface.
    pub fn with_surface(self, surface: Handle<Surface>) -> (curve: MaybePartial<PartialCurve>)
        ensures
            curve == self.on_surface(surface),
    {
        match self {
            MaybePartial::Full(curve) => MaybePartial::Full(curve),
            MaybePartial::Partial(partial) => MaybePartial::Partial(
                partial.with_surface(Some(surface)),
            ),
        }
    }
}

} // verus!
