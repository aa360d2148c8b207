//! Every call that the grammar reads is checked where it stands: its name
//! is bound in the scopes that are open there, and each argument may be
//! passed for the parameter of its position. A call of an unbound name, or
//! with an argument that does not fit, is refused by the grammar and so
//! never reaches a code generator.

use vstd::prelude::*;
use crate::ast::AstView;
use crate::grammar::{
    advanced, arguments, block, expect, expression, function, function_call, if_statement, lookup,
    parameter_list, program, program_statements, statement, statements, while_statement,
    ParseState,
};
use crate::lexer::{TokenType, TokenView};
use crate::precedence::OperatorPrecedence;
use crate::scope::ScopeView;
use crate::types::PrimitiveType;

verus! {

/// Whether each of `values` may be passed for the parameter of its
/// position, where the first of them stands at position `from`: there is
/// such a parameter, and the type of the value is compatible with the type
/// of the parameter in the one-sided direction.
pub open spec fn arguments_fit(
    values: Seq<AstView>,
    parameter_types: Seq<PrimitiveType>,
    from: int,
) -> bool {
    forall|i: int|
        0 <= i < values.len() ==> {
            &&& 0 <= from + i < parameter_types.len()
            &&& (#[trigger] values[i]).primitive_type().compatible(parameter_types[from + i], true)
        }
}

/// The arguments that the grammar reads fit the parameters that they are
/// read for.
pub proof fn lemma_arguments_fit(
    tokens: Seq<TokenView>,
    scopes: Seq<ScopeView>,
    index: int,
    parameter_types: Seq<PrimitiveType>,
    ordinal: int,
)
    ensures
        arguments(tokens, scopes, index, parameter_types, ordinal) matches Ok((values, _))
            ==> arguments_fit(values, parameter_types, ordinal),
    decreases tokens.len() - index,
{
    if 0 <= index < tokens.len() && !(tokens[index].token_type is RightParen) {
        match expression(tokens, scopes, index, OperatorPrecedence::Zero) {
            Ok((argument, next)) => {
                if index < next < tokens.len() {
                    lemma_arguments_fit(tokens, scopes, next + 1, parameter_types, ordinal + 1);
                    match arguments(tokens, scopes, next + 1, parameter_types, ordinal + 1) {
                        Ok((rest, _)) => {
                            let values = seq![argument] + rest;
                            assert forall|i: int| 0 < i < values.len() implies {
                                &&& 0 <= ordinal + i < parameter_types.len()
                                &&& (#[trigger] values[i]).primitive_type().compatible(
                                    parameter_types[ordinal + i],
                                    true,
                                )
                            } by {
                                assert(values[i] == rest[i - 1]);
                            }
                        },
                        Err(_) => {},
                    }
                }
            },
            Err(_) => {},
        }
    }
}

/// A call that the grammar reads is a call of a name that is bound in the
/// scopes open at the call, with arguments that fit the parameters of the
/// symbol that the name is bound to.
pub proof fn lemma_function_call_is_checked(tokens: Seq<TokenView>, state: ParseState)
    ensures
        function_call(tokens, state) matches Ok((node, after)) ==> {
            &&& node matches AstView::FunctionCall(name, values)
            &&& name == tokens[state.index].value
            &&& lookup(state.scopes, name) matches Some(callee)
            &&& arguments_fit(values, callee.parameter_types, 0)
            &&& after.scopes == state.scopes
        },
{
    let index = state.index;
    if 0 <= index < tokens.len() {
        match lookup(state.scopes, tokens[index].value) {
            Some(callee) => {
                lemma_arguments_fit(tokens, state.scopes, index + 2, callee.parameter_types, 0);
            },
            None => {},
        }
    }
}

/// The calls in a tree, in the order in which they stand.
pub open spec fn calls_in(node: AstView) -> Seq<AstView>
    decreases node,
{
    match node {
        AstView::FunctionCall(_, _) => seq![node],
        AstView::Block(children) => calls_in_all(children),
        AstView::If(_, body, else_body) => calls_in(*body) + match else_body {
            Some(else_node) => calls_in(*else_node),
            None => Seq::empty(),
        },
        AstView::While(_, body) => calls_in(*body),
        AstView::Function(_, body) => calls_in(*body),
        _ => Seq::empty(),
    }
}

/// The calls in a sequence of trees, in the order in which they stand.
pub open spec fn calls_in_all(nodes: Seq<AstView>) -> Seq<AstView>
    decreases nodes,
{
    if nodes.len() == 0 {
        Seq::empty()
    } else {
        calls_in(nodes[0]) + calls_in_all(nodes.drop_first())
    }
}

/// A call where it was read: the state of the parser at its first token,
/// with the scopes that were open there, and the node that was read.
pub struct CallSite {
    pub state: ParseState,
    pub call: AstView,
}

/// The nodes of a sequence of call sites.
pub open spec fn calls_of(sites: Seq<CallSite>) -> Seq<AstView> {
    Seq::new(sites.len(), |k: int| sites[k].call)
}

/// The calls that the grammar reads in one statement, each with the state
/// in which it is read.
pub open spec fn statement_sites(tokens: Seq<TokenView>, state: ParseState) -> Seq<CallSite>
    decreases tokens.len() - state.index, 1int,
{
    let index = state.index;
    if index < 0 || index >= tokens.len() {
        Seq::empty()
    } else {
        match tokens[index].token_type {
            TokenType::LeftBrace => block_sites(tokens, state),
            TokenType::If => if_sites(tokens, state),
            TokenType::While => while_sites(tokens, state),
            TokenType::Function => function_sites(tokens, state),
            TokenType::Identifier => {
                if index + 1 < tokens.len() && tokens[index + 1].token_type is LeftParen {
                    match function_call(tokens, state) {
                        Ok((call, _)) => seq![CallSite { state, call }],
                        Err(_) => Seq::empty(),
                    }
                } else {
                    Seq::empty()
                }
            },
            _ => Seq::empty(),
        }
    }
}

/// The calls that the grammar reads in the statements of a block.
pub open spec fn statements_sites(tokens: Seq<TokenView>, state: ParseState) -> Seq<CallSite>
    decreases tokens.len() - state.index, 2int,
{
    let index = state.index;
    if index < 0 || index >= tokens.len() || tokens[index].token_type is RightBrace {
        Seq::empty()
    } else {
        match statement(tokens, state) {
            Ok((_, next)) => {
                if advanced(tokens, index, next) {
                    statement_sites(tokens, state) + statements_sites(tokens, next)
                } else {
                    Seq::empty()
                }
            },
            Err(_) => Seq::empty(),
        }
    }
}

/// The calls that the grammar reads in a block: those of its statements,
/// read in the scope of the block.
pub open spec fn block_sites(tokens: Seq<TokenView>, state: ParseState) -> Seq<CallSite>
    decreases tokens.len() - state.index, 0int,
{
    if state.index < 0 || state.index >= tokens.len() {
        Seq::empty()
    } else {
        statements_sites(
            tokens,
            ParseState {
                index: state.index + 1,
                scopes: state.scopes.push(ScopeView::empty()),
            },
        )
    }
}

/// The calls that the grammar reads in an `if`: those of its two blocks.
pub open spec fn if_sites(tokens: Seq<TokenView>, state: ParseState) -> Seq<CallSite>
    decreases tokens.len() - state.index, 0int,
{
    let index = state.index;
    match expression(tokens, state.scopes, index + 1, OperatorPrecedence::Zero) {
        Ok((_, next)) => {
            if index < next <= tokens.len() {
                let inside = ParseState { index: next, scopes: state.scopes };
                match block(tokens, inside) {
                    Ok((_, after)) => {
                        if index < after.index < tokens.len()
                            && tokens[after.index].token_type is Else {
                            block_sites(tokens, inside) + block_sites(
                                tokens,
                                ParseState { index: after.index + 1, scopes: after.scopes },
                            )
                        } else {
                            block_sites(tokens, inside)
                        }
                    },
                    Err(_) => Seq::empty(),
                }
            } else {
                Seq::empty()
            }
        },
        Err(_) => Seq::empty(),
    }
}

/// The calls that the grammar reads in a `while`: those of its block.
pub open spec fn while_sites(tokens: Seq<TokenView>, state: ParseState) -> Seq<CallSite>
    decreases tokens.len() - state.index, 0int,
{
    let index = state.index;
    match expression(tokens, state.scopes, index + 1, OperatorPrecedence::Zero) {
        Ok((_, next)) => {
            if index < next <= tokens.len() {
                block_sites(tokens, ParseState { index: next, scopes: state.scopes })
            } else {
                Seq::empty()
            }
        },
        Err(_) => Seq::empty(),
    }
}

/// The calls that the grammar reads in a function: those of its block,
/// read with the parameters declared.
pub open spec fn function_sites(tokens: Seq<TokenView>, state: ParseState) -> Seq<CallSite>
    decreases tokens.len() - state.index, 0int,
{
    let index = state.index;
    match parameter_list(tokens, ParseState { index: index + 3, scopes: state.scopes }, 0) {
        Ok((_, at_paren)) => match expect(tokens, at_paren.scopes, at_paren.index, TokenType::RightParen) {
            Ok(next) => {
                if index < next <= tokens.len() {
                    block_sites(tokens, ParseState { index: next, scopes: at_paren.scopes })
                } else {
                    Seq::empty()
                }
            },
            Err(_) => Seq::empty(),
        },
        Err(_) => Seq::empty(),
    }
}

/// The calls that the grammar reads in the statements of a program.
pub open spec fn program_sites(tokens: Seq<TokenView>, state: ParseState) -> Seq<CallSite>
    decreases tokens.len() - state.index, 2int,
{
    if state.index < 0 || state.index >= tokens.len() {
        Seq::empty()
    } else {
        match statement(tokens, state) {
            Ok((_, next)) => {
                if advanced(tokens, state.index, next) {
                    statement_sites(tokens, state) + program_sites(tokens, next)
                } else {
                    Seq::empty()
                }
            },
            Err(_) => Seq::empty(),
        }
    }
}

/// Whether every one of `sites` is a call that the grammar reads in the
/// state of the site, and so a checked one: its name is bound in the
/// scopes open there, and its arguments fit the parameters of the symbol
/// that the name is bound to.
pub open spec fn sites_checked(tokens: Seq<TokenView>, sites: Seq<CallSite>) -> bool {
    forall|k: int|
        0 <= k < sites.len() ==> {
            let site = #[trigger] sites[k];
            &&& function_call(tokens, site.state) matches Ok((call, _))
            &&& call == site.call
            &&& site.call matches AstView::FunctionCall(name, values)
            &&& lookup(site.state.scopes, name) matches Some(callee)
            &&& arguments_fit(values, callee.parameter_types, 0)
        }
}

/// Whether the calls in `tree` are the calls of `sites`, and every one of
/// them is checked.
pub open spec fn calls_checked(tokens: Seq<TokenView>, sites: Seq<CallSite>, tree: AstView) -> bool {
    calls_in(tree) == calls_of(sites) && sites_checked(tokens, sites)
}

/// Checked sites joined are checked sites, and their calls are the calls
/// of the one followed by the calls of the other.
pub proof fn lemma_sites_join(tokens: Seq<TokenView>, first: Seq<CallSite>, second: Seq<CallSite>)
    requires
        sites_checked(tokens, first),
        sites_checked(tokens, second),
    ensures
        sites_checked(tokens, first + second),
        calls_of(first + second) == calls_of(first) + calls_of(second),
{
    assert(calls_of(first + second) =~= calls_of(first) + calls_of(second));
    assert forall|k: int| 0 <= k < (first + second).len() implies {
        let site = #[trigger] (first + second)[k];
        &&& function_call(tokens, site.state) matches Ok((call, _))
        &&& call == site.call
        &&& site.call matches AstView::FunctionCall(name, values)
        &&& lookup(site.state.scopes, name) matches Some(callee)
        &&& arguments_fit(values, callee.parameter_types, 0)
    } by {
        if k < first.len() {
            assert((first + second)[k] == first[k]);
        } else {
            assert((first + second)[k] == second[k - first.len()]);
        }
    }
}

/// The calls in the tree of a statement are the calls that the grammar
/// reads in it, and every one of them is checked.
pub proof fn lemma_statement_calls(tokens: Seq<TokenView>, state: ParseState)
    ensures
        sites_checked(tokens, statement_sites(tokens, state)),
        statement(tokens, state) matches Ok((node, _)) ==> calls_in(node) == calls_of(
            statement_sites(tokens, state),
        ),
    decreases tokens.len() - state.index, 1int,
{
    let index = state.index;
    if 0 <= index < tokens.len() {
        match tokens[index].token_type {
            TokenType::LeftBrace => lemma_block_calls(tokens, state),
            TokenType::If => lemma_if_calls(tokens, state),
            TokenType::While => lemma_while_calls(tokens, state),
            TokenType::Function => lemma_function_calls(tokens, state),
            TokenType::Identifier => {
                lemma_function_call_is_checked(tokens, state);
                match function_call(tokens, state) {
                    Ok((call, _)) => {
                        assert(calls_of(seq![CallSite { state, call }]) =~= seq![call]);
                    },
                    Err(_) => {},
                }
                assert(calls_of(Seq::<CallSite>::empty()) =~= Seq::<AstView>::empty());
            },
            _ => {
                assert(calls_of(Seq::<CallSite>::empty()) =~= Seq::<AstView>::empty());
            },
        }
    }
}

/// The calls in the statements of a block are the calls that the grammar
/// reads in them, and every one of them is checked.
pub proof fn lemma_statements_calls(tokens: Seq<TokenView>, state: ParseState)
    ensures
        sites_checked(tokens, statements_sites(tokens, state)),
        statements(tokens, state) matches Ok((children, _)) ==> calls_in_all(children)
            == calls_of(statements_sites(tokens, state)),
    decreases tokens.len() - state.index, 2int,
{
    let index = state.index;
    assert(calls_of(Seq::<CallSite>::empty()) =~= Seq::<AstView>::empty());
    if 0 <= index < tokens.len() && !(tokens[index].token_type is RightBrace) {
        lemma_statement_calls(tokens, state);
        match statement(tokens, state) {
            Ok((node, next)) => {
                if advanced(tokens, index, next) {
                    lemma_statements_calls(tokens, next);
                    lemma_sites_join(
                        tokens,
                        statement_sites(tokens, state),
                        statements_sites(tokens, next),
                    );
                    match statements(tokens, next) {
                        Ok((rest, _)) => {
                            assert((seq![node] + rest).drop_first() =~= rest);
                        },
                        Err(_) => {},
                    }
                }
            },
            Err(_) => {},
        }
    }
}

/// The calls in a block are the calls that the grammar reads in it, and
/// every one of them is checked.
pub proof fn lemma_block_calls(tokens: Seq<TokenView>, state: ParseState)
    ensures
        sites_checked(tokens, block_sites(tokens, state)),
        block(tokens, state) matches Ok((node, _)) ==> calls_in(node) == calls_of(
            block_sites(tokens, state),
        ),
    decreases tokens.len() - state.index, 0int,
{
    if 0 <= state.index < tokens.len() {
        lemma_statements_calls(
            tokens,
            ParseState {
                index: state.index + 1,
                scopes: state.scopes.push(ScopeView::empty()),
            },
        );
    }
}

/// The calls in an `if` are the calls that the grammar reads in it, and
/// every one of them is checked.
pub proof fn lemma_if_calls(tokens: Seq<TokenView>, state: ParseState)
    ensures
        sites_checked(tokens, if_sites(tokens, state)),
        if_statement(tokens, state) matches Ok((node, _)) ==> calls_in(node) == calls_of(
            if_sites(tokens, state),
        ),
    decreases tokens.len() - state.index, 0int,
{
    let index = state.index;
    assert(calls_of(Seq::<CallSite>::empty()) =~= Seq::<AstView>::empty());
    match expression(tokens, state.scopes, index + 1, OperatorPrecedence::Zero) {
        Ok((_, next)) => {
            if index < next <= tokens.len() {
                let inside = ParseState { index: next, scopes: state.scopes };
                lemma_block_calls(tokens, inside);
                match block(tokens, inside) {
                    Ok((body, after)) => {
                        if index < after.index < tokens.len()
                            && tokens[after.index].token_type is Else {
                            let other = ParseState { index: after.index + 1, scopes: after.scopes };
                            lemma_block_calls(tokens, other);
                            lemma_sites_join(
                                tokens,
                                block_sites(tokens, inside),
                                block_sites(tokens, other),
                            );
                        } else {
                            assert(calls_in(body) + Seq::<AstView>::empty() =~= calls_in(body));
                        }
                    },
                    Err(_) => {},
                }
            }
        },
        Err(_) => {},
    }
}

/// The calls in a `while` are the calls that the grammar reads in it, and
/// every one of them is checked.
pub proof fn lemma_while_calls(tokens: Seq<TokenView>, state: ParseState)
    ensures
        sites_checked(tokens, while_sites(tokens, state)),
        while_statement(tokens, state) matches Ok((node, _)) ==> calls_in(node) == calls_of(
            while_sites(tokens, state),
        ),
    decreases tokens.len() - state.index, 0int,
{
    let index = state.index;
    match expression(tokens, state.scopes, index + 1, OperatorPrecedence::Zero) {
        Ok((_, next)) => {
            if index < next <= tokens.len() {
                lemma_block_calls(tokens, ParseState { index: next, scopes: state.scopes });
            }
        },
        Err(_) => {},
    }
}

/// The calls in a function are the calls that the grammar reads in it, and
/// every one of them is checked.
pub proof fn lemma_function_calls(tokens: Seq<TokenView>, state: ParseState)
    ensures
        sites_checked(tokens, function_sites(tokens, state)),
        function(tokens, state) matches Ok((node, _)) ==> calls_in(node) == calls_of(
            function_sites(tokens, state),
        ),
    decreases tokens.len() - state.index, 0int,
{
    let index = state.index;
    match parameter_list(tokens, ParseState { index: index + 3, scopes: state.scopes }, 0) {
        Ok((_, at_paren)) => match expect(tokens, at_paren.scopes, at_paren.index, TokenType::RightParen) {
            Ok(next) => {
                if index < next <= tokens.len() {
                    lemma_block_calls(
                        tokens,
                        ParseState { index: next, scopes: at_paren.scopes },
                    );
                }
            },
            Err(_) => {},
        },
        Err(_) => {},
    }
}

/// The calls in the statements of a program are the calls that the grammar
/// reads in them, and every one of them is checked.
pub proof fn lemma_program_statements_calls(tokens: Seq<TokenView>, state: ParseState)
    ensures
        sites_checked(tokens, program_sites(tokens, state)),
        program_statements(tokens, state) matches Ok((children, _)) ==> calls_in_all(children)
            == calls_of(program_sites(tokens, state)),
    decreases tokens.len() - state.index, 2int,
{
    assert(calls_of(Seq::<CallSite>::empty()) =~= Seq::<AstView>::empty());
    if 0 <= state.index < tokens.len() {
        lemma_statement_calls(tokens, state);
        match statement(tokens, state) {
            Ok((node, next)) => {
                if advanced(tokens, state.index, next) {
                    lemma_program_statements_calls(tokens, next);
                    lemma_sites_join(
                        tokens,
                        statement_sites(tokens, state),
                        program_sites(tokens, next),
                    );
                    match program_statements(tokens, next) {
                        Ok((rest, _)) => {
                            assert((seq![node] + rest).drop_first() =~= rest);
                        },
                        Err(_) => {},
                    }
                }
            },
            Err(_) => {},
        }
    }
}

/// Every call in the tree of a program that parses is a call that the
/// grammar read, in a state of the parse, and is checked there: its name is
/// bound in the scopes that were open at the call, and each argument is
/// compatible, in the one-sided direction, with the parameter of its
/// position of the symbol that the name is bound to.
pub proof fn lemma_program_calls(tokens: Seq<TokenView>, state: ParseState)
    ensures
        program(tokens, state) matches Ok((tree, _)) ==> calls_checked(
            tokens,
            program_sites(tokens, state),
            tree,
        ),
{
    lemma_program_statements_calls(tokens, state);
}

} // verus!
