//! The syntax nodes that identifier parsing produces.

use crate::span::Span;
use vstd::prelude::*;

verus! {

/// An identifier that refers to, or introduces, a binding.
#[derive(Debug, PartialEq, Eq)]
pub struct Ident {
    pub span: Span,
    pub sym: String,
}

/// An [`Ident`] with its name as a sequence of characters.
pub struct IdentView {
    pub span: Span,
    pub sym: Seq<char>,
}

impl View for Ident {
    type V = IdentView;

    open spec fn view(&self) -> IdentView {
        IdentView { span: self.span, sym: self.sym@ }
    }
}

/// A name in a position where every word is allowed, reserved or not:
/// a property or member name.
#[derive(Debug, PartialEq, Eq)]
pub struct IdentName {
    pub span: Span,
    pub sym: String,
}

/// An [`IdentName`] with its name as a sequence of characters.
pub struct IdentNameView {
    pub span: Span,
    pub sym: Seq<char>,
}

impl View for IdentName {
    type V = IdentNameView;

    open spec fn view(&self) -> IdentNameView {
        IdentNameView { span: self.span, sym: self.sym@ }
    }
}

impl IdentNameView {
    /// The identifier with the same name and place.
    pub open spec fn as_ident(self) -> IdentView {
        IdentView { span: self.span, sym: self.sym }
    }
}

impl IdentName {
    /// The identifier with the same name and place.
    pub fn into_ident(self) -> (id: Ident)
        ensures
            id@ == self@.as_ident(),
    {
        Ident { span: self.span, sym: self.sym }
    }
}

/// A private name, `#name`. The span covers the sigil; `name` leaves it out.
#[derive(Debug, PartialEq, Eq)]
pub struct PrivateName {
    pub span: Span,
    pub name: String,
}

/// A [`PrivateName`] with its name as a sequence of characters.
pub struct PrivateNameView {
    pub span: Span,
    pub name: Seq<char>,
}

impl View for PrivateName {
    type V = PrivateNameView;

    open spec fn view(&self) -> PrivateNameView {
        PrivateNameView { span: self.span, name: self.name@ }
    }
}

/// A string literal: its value and, where known, its source text.
#[derive(Debug, PartialEq, Eq)]
pub struct Str {
    pub span: Span,
    pub value: String,
    pub raw: Option<String>,
}

/// A [`Str`] with its texts as sequences of characters.
pub struct StrView {
    pub span: Span,
    pub value: Seq<char>,
    pub raw: Option<Seq<char>>,
}

impl View for Str {
    type V = StrView;

    open spec fn view(&self) -> StrView {
        StrView {
            span: self.span,
            value: self.value@,
            raw: match self.raw {
                Some(raw) => Some(raw@),
                None => None,
            },
        }
    }
}

/// The name under which a module exports or imports a binding.
#[derive(Debug, PartialEq, Eq)]
pub enum ModuleExportName {
    Ident(Ident),
    Str(Str),
}

/// A [`ModuleExportName`] with its texts as sequences of characters.
pub enum ModuleExportNameView {
    Ident(IdentView),
    Str(StrView),
}

impl View for ModuleExportName {
    type V = ModuleExportNameView;

    open spec fn view(&self) -> ModuleExportNameView {
        match *self {
            ModuleExportName::Ident(id) => ModuleExportNameView::Ident(id@),
            ModuleExportName::Str(s) => ModuleExportNameView::Str(s@),
        }
    }
}

} // verus!
