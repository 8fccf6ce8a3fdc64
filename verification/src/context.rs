//! The syntactic environment a token is read in.

use vstd::prelude::*;

verus! {

/// The flags that describe where in the program the parser currently is.
///
/// A context is a plain value. A nested construct is parsed under a copy
/// with some flags changed; the enclosing construct keeps its own.
#[derive(Clone, Copy, Debug, PartialEq, Eq, Hash, Structural)]
pub struct Context {
    /// The parse goal is a module, not a script.
    pub module: bool,
    /// Inside the body of an async function.
    pub in_async: bool,
    /// Inside the body of a generator.
    pub in_generator: bool,
    /// Inside a class static initialization block.
    pub in_static_block: bool,
    /// Inside a class field initializer.
    pub in_class_field: bool,
    /// Inside a type annotation.
    pub in_type: bool,
    /// Inside an ambient declaration, which has no runtime body.
    pub in_declare: bool,
}

impl Context {
    /// The context with every flag off: top level of a script.
    pub open spec fn none() -> Context {
        Context {
            module: false,
            in_async: false,
            in_generator: false,
            in_static_block: false,
            in_class_field: false,
            in_type: false,
            in_declare: false,
        }
    }

    /// The context with every flag off.
    pub fn empty() -> (ctx: Context)
        ensures
            ctx == Context::none(),
    {
        Context {
            module: false,
            in_async: false,
            in_generator: false,
            in_static_block: false,
            in_class_field: false,
            in_type: false,
            in_declare: false,
        }
    }
}

impl Default for Context {
    fn default() -> (ctx: Context)
        ensures
            ctx == Context::none(),
    {
        Context::empty()
    }
}

/// The language the source is written in.
#[derive(Clone, Copy, Debug, PartialEq, Eq, Hash, Structural)]
pub enum Syntax {
    /// Plain ECMAScript.
    Es,
    /// TypeScript, where `this` also names a type.
    Typescript,
}

impl Syntax {
    /// Whether `this` may be read as an identifier.
    pub open spec fn is_typescript(self) -> bool {
        self is Typescript
    }

    /// Whether the source is TypeScript.
    pub fn typescript(&self) -> (b: bool)
        ensures
            b == self.is_typescript(),
    {
        match self {
            Syntax::Typescript => true,
            Syntax::Es => false,
        }
    }
}

} // verus!
