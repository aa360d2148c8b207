//! Symbols and scopes: one scope maps the names declared in a block to
//! their symbols and keeps count of the stack-frame bytes handed out.

use vstd::prelude::*;
use vstd::hash_map::StringHashMap;
use crate::types::PrimitiveType;

verus! {

/// What a name stands for.
#[derive(Debug, Copy, Clone, PartialEq, Eq, Structural)]
pub enum SymbolType {
    Variable,
    Function,
    FunctionParameter,
}

/// A declared name. `offset` is the stack-frame byte offset of a variable
/// and the ordinal of the parameter register of a function parameter; a
/// function does not use it. `parameter_types` is empty for everything but
/// functions.
#[derive(Debug, PartialEq, Eq)]
pub struct Symbol {
    pub symbol_type: SymbolType,
    pub primitive_type: PrimitiveType,
    pub parameter_types: Vec<PrimitiveType>,
    pub name: String,
    pub offset: i32,
}

/// The mathematical value of a `Symbol`.
pub struct SymbolView {
    pub symbol_type: SymbolType,
    pub primitive_type: PrimitiveType,
    pub parameter_types: Seq<PrimitiveType>,
    pub name: Seq<char>,
    pub offset: int,
}

impl View for Symbol {
    type V = SymbolView;

    open spec fn view(&self) -> SymbolView {
        SymbolView {
            symbol_type: self.symbol_type,
            primitive_type: self.primitive_type,
            parameter_types: self.parameter_types@,
            name: self.name@,
            offset: self.offset as int,
        }
    }
}

impl Clone for Symbol {
    fn clone(&self) -> (cloned: Symbol)
        ensures
            cloned@ == self@,
    {
        let mut parameter_types: Vec<PrimitiveType> = Vec::new();
        let mut i: usize = 0;
        while i < self.parameter_types.len()
            invariant
                i <= self.parameter_types.len(),
                parameter_types@ == self.parameter_types@.subrange(0, i as int),
            decreases self.parameter_types.len() - i,
        {
            parameter_types.push(self.parameter_types[i]);
            i += 1;
        }
        assert(parameter_types@ =~= self.parameter_types@);
        Symbol {
            symbol_type: self.symbol_type,
            primitive_type: self.primitive_type,
            parameter_types,
            name: self.name.clone(),
            offset: self.offset,
        }
    }
}

/// Why a declaration was refused.
#[derive(Debug, Copy, Clone, PartialEq, Eq, Structural)]
pub enum ScopeError {
    /// The name is already declared in this scope.
    Redeclaration,
    /// The frame offset would no longer fit its 32 bits.
    FrameTooLarge,
}

/// The names declared in one block.
pub struct Scope {
    pub symbols: StringHashMap<Symbol>,
    pub last_offset: i32,
}

/// The mathematical value of a `Scope`.
pub struct ScopeView {
    pub symbols: Map<Seq<char>, SymbolView>,
    pub last_offset: int,
}

impl ScopeView {
    /// The scope in which nothing is declared yet.
    pub open spec fn empty() -> ScopeView {
        ScopeView { symbols: Map::empty(), last_offset: 0 }
    }

    /// The symbol bound to `name` in this scope.
    pub open spec fn get(self, name: Seq<char>) -> Option<SymbolView> {
        if self.symbols.contains_key(name) {
            Some(self.symbols[name])
        } else {
            None
        }
    }

    /// The frame offset after a declaration of type `primitive_type`: each
    /// declaration takes as many bytes as its type is wide.
    pub open spec fn advanced(self, primitive_type: PrimitiveType) -> int {
        self.last_offset + primitive_type.size() / 8
    }

    /// Declares `name` at the explicit location `offset`. The frame offset
    /// advances all the same.
    pub open spec fn add_with_offset(
        self,
        name: Seq<char>,
        primitive_type: PrimitiveType,
        parameter_types: Seq<PrimitiveType>,
        symbol_type: SymbolType,
        offset: int,
    ) -> Result<(ScopeView, SymbolView), ScopeError> {
        if self.symbols.contains_key(name) {
            Err(ScopeError::Redeclaration)
        } else if self.advanced(primitive_type) > i32::MAX {
            Err(ScopeError::FrameTooLarge)
        } else {
            let symbol = SymbolView { symbol_type, primitive_type, parameter_types, name, offset };
            Ok(
                (
                    ScopeView {
                        symbols: self.symbols.insert(name, symbol),
                        last_offset: self.advanced(primitive_type),
                    },
                    symbol,
                ),
            )
        }
    }

    /// Declares `name` at the next frame offset.
    pub open spec fn add(
        self,
        name: Seq<char>,
        primitive_type: PrimitiveType,
        parameter_types: Seq<PrimitiveType>,
        symbol_type: SymbolType,
    ) -> Result<(ScopeView, SymbolView), ScopeError> {
        self.add_with_offset(
            name,
            primitive_type,
            parameter_types,
            symbol_type,
            self.advanced(primitive_type),
        )
    }
}

/// Within a scope the frame offsets grow strictly: a symbol declared at the
/// next frame offset, with a type that takes room, lies beyond the frame
/// as it was, and the frame then ends where the symbol lies.
pub proof fn lemma_offsets_increase(
    scope: ScopeView,
    name: Seq<char>,
    primitive_type: PrimitiveType,
    parameter_types: Seq<PrimitiveType>,
    symbol_type: SymbolType,
)
    requires
        scope.add(name, primitive_type, parameter_types, symbol_type) is Ok,
        primitive_type.size() > 0,
    ensures
        ({
            let (after, symbol) = scope.add(
                name,
                primitive_type,
                parameter_types,
                symbol_type,
            )->Ok_0;
            &&& symbol.offset > scope.last_offset
            &&& after.last_offset == symbol.offset
            &&& after.get(name) == Some(symbol)
            &&& forall|other: Seq<char>| other != name ==> after.get(other) == scope.get(other)
        }),
{
}

impl View for Scope {
    type V = ScopeView;

    open spec fn view(&self) -> ScopeView {
        ScopeView {
            symbols: self.symbols@.map_values(|symbol: Symbol| symbol@),
            last_offset: self.last_offset as int,
        }
    }
}

impl Scope {
    /// A scope in which nothing is declared, with an empty frame.
    pub fn new() -> (scope: Scope)
        ensures
            scope@ == ScopeView::empty(),
    {
        let scope = Scope { symbols: StringHashMap::new(), last_offset: 0 };
        assert(scope@.symbols =~= Map::empty());
        scope
    }

    /// Looks `name` up in this scope alone.
    pub fn get(&self, name: &str) -> (found: Option<&Symbol>)
        ensures
            match found {
                Some(symbol) => self@.get(name@) == Some(symbol@),
                None => self@.get(name@) is None,
            },
    {
        self.symbols.get(name)
    }

    /// Declares `name` at the next frame offset, which grows by the byte
    /// width of `primitive_type`.
    pub fn add(
        &mut self,
        name: &String,
        primitive_type: PrimitiveType,
        parameter_types: Vec<PrimitiveType>,
        symbol_type: SymbolType,
    ) -> (added: Result<Symbol, ScopeError>)
        ensures
            match old(self)@.add(name@, primitive_type, parameter_types@, symbol_type) {
                Ok((scope, symbol)) => added is Ok && added->Ok_0@ == symbol && final(self)@
                    == scope,
                Err(error) => added == Err::<Symbol, ScopeError>(error) && final(self)@ == old(
                    self,
                )@,
            },
    {
        let width: i32 = primitive_type.get_size() / 8;
        if self.last_offset > i32::MAX - width {
            if self.symbols.contains_key(name.as_str()) {
                return Err(ScopeError::Redeclaration);
            }
            return Err(ScopeError::FrameTooLarge);
        }
        let offset: i32 = self.last_offset + width;
        self.add_with_offset(name, primitive_type, parameter_types, symbol_type, offset)
    }

    /// Declares `name` at the explicit location `offset`; the frame offset
    /// still grows by the byte width of `primitive_type`.
    pub fn add_with_offset(
        &mut self,
        name: &String,
        primitive_type: PrimitiveType,
        parameter_types: Vec<PrimitiveType>,
        symbol_type: SymbolType,
        offset: i32,
    ) -> (added: Result<Symbol, ScopeError>)
        ensures
            match old(self)@.add_with_offset(
                name@,
                primitive_type,
                parameter_types@,
                symbol_type,
                offset as int,
            ) {
                Ok((scope, symbol)) => added is Ok && added->Ok_0@ == symbol && final(self)@
                    == scope,
                Err(error) => added == Err::<Symbol, ScopeError>(error) && final(self)@ == old(
                    self,
                )@,
            },
    {
        if self.symbols.contains_key(name.as_str()) {
            return Err(ScopeError::Redeclaration);
        }
        let width: i32 = primitive_type.get_size() / 8;
        if self.last_offset > i32::MAX - width {
            return Err(ScopeError::FrameTooLarge);
        }
        self.last_offset = self.last_offset + width;
        let symbol = Symbol {
            symbol_type,
            primitive_type,
            parameter_types,
            name: name.clone(),
            offset,
        };
        let result = symbol.clone();
        self.symbols.insert(name.clone(), symbol);
        proof {
            assert(final(self)@.symbols =~= old(self)@.symbols.insert(name@, symbol@));
        }
        Ok(result)
    }
}

} // verus!
