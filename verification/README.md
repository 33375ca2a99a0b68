# Hatchet

Hatchet turns Haxe sources into C++98 headers and sources. The library under `src/` holds the
parser, the model of a program, the generator of headers and sources, and the rules of a run, and
is verified with Verus; the program under `app/` reads the command line, finds, reads and writes
files, and prints.

Some analyses are not part of this project. What a validation finds in a module (types that cannot
be resolved, constructs that are not supported, deprecated spellings) is an input of a run, the
`Findings`. What an ownership analysis says of a class (which fields its objects free, which
arguments its constructor takes over, what its destructor does, what holds its temporaries) is an
input of the generator, the `ClassFacts`. The program passes neither: it reports only what the
parser and the generator find, and no destructor frees a field.

## Layout

| where | what |
| --- | --- |
| `text`, `strings`, `token`, `lexer` | texts, and the tokens of a source |
| `ast`, `model`, `copy`, `node` | the syntax tree, its mathematical model, and copies of its parts |
| `parser` | the recursive descent parser, with conditional compilation |
| `program`, `assemble`, `resolve`, `rebase` | the modules of a program, the types they declare, what a name names, and what a header includes |
| `codegen` | types, expressions, statements, classes, headers, sources and the single header |
| `prelude`, `report`, `cli`, `driver` | the prelude header, the command line, and the plan of a run |
| `laws` | what holds of several functions together |

## Reading the contracts

Every syntax type `X` has a model `XV`, in which strings and lists are sequences and numbers are
unbounded; `x.v()` is the model of `x`. A function `f` ensures that the model of its result is
`f_spec` of the models of its arguments. A method of the parser also says what becomes of the
cursor (`St`), a method of the body generator what becomes of the generator's state (`GenV`).

The definitions of the parser's and the generator's functions are opaque, which keeps each proof to
its own function and the functions that it calls. A proof that needs one opens it with `reveal`.

Besides its equation a function states what callers rely on: the parser never moves back and groups
operators as they bind, tokens stand in order and end in an end-of-file token, and the generator
leaves its configuration, its nesting depths and its open scopes as they were.

The recursion of the generator through interpolated strings is bounded by the length of the
string: that is what `room` counts.

## What is trusted

`String::push`, `str::to_uppercase`, `char::to_uppercase`, `char::is_whitespace` and the debug form
of a `str` are taken from the standard library. `String::push` is stated to append its character,
`char::is_whitespace` to hold of the characters that Unicode lists as white space; what the others
compute is named (`upper`, `upper_char`, `quoted`), not defined.
