# deriving_via

Generalised newtype deriving and deriving via for single-field structs:
`#[derive(DerivingVia)]` with `#[deriving(..)]` and `#[transitive(..)]`
attributes, with every step proved against its contract.

Two attribute grammars are read. The current one writes
`Derive(via: Type)`; a derive not in the list is reported as "Sorry,
unsupported Derive", and `self` as the argument, `FromIterator` without `via`
and `IntoIterator` with `via` stop the whole expansion. The older one, which
the crate's documentation uses, writes `Derive(via = Type)`; a malformed
argument is reported with its texts, "expected: (via = <Type>)" and
"expected: <Type>". The available derives are those of the current list;
`Debug` and `Clone` are not among them.

The library (`src/`) takes the tokens of the item, has `syn` read them as a
derive input, and writes the generated impls as text.
Malformed attribute syntax is reported with the library's own fixed messages
(such as "expected path" or "expected type"); they name the kind of mistake
but do not repeat the wording that `syn`'s parser would give.

- `tokens`, `input`: the model of token trees and of the item the derive is
  applied to.
- `fields`: finding the underlying field (the only one, or the one marked
  `#[underlying]`), its accessor, type and constructor.
- `attrs`: reading `#[deriving(..)]` and `#[transitive(..)]`.
- `derives`: the available derives and their names.
- `codegen`, `generate`: the template of each derive and the choice among
  them.
- `expand`: the whole expansion, in attribute order, followed by `Deref` and
  `DerefMut`; `derive_generalised_newtype_deriving` runs it on the tokens of
  an item.
- `invoke`: `#[derive(Invoke)]` (`into_extract` on the tokens of an enum),
  which dispatches an enum of derives to the modules named after its variants.
- `syntax`: the Rust grammar (items, enums, paths, types, function
  arguments) read by `syn`, and the case conversion of `convert_case`.
- `example`, `gnd`, `id`: newtypes with the impls the derive gives them,
  written out and verified.

`app/` turns a `proc_macro2` token stream into the library's token model and
the generated text and reported errors back into tokens.
