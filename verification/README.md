# solid_jsx_oxc

Lint rules and compiler building blocks for Solid's JSX, on top of the oxc
JavaScript toolchain, with their behaviour stated in contracts and proved by
Verus.

## Layout

- `src/` is the verified library.
  - `jsx.rs` holds the library's model of the JSX syntax it reads (elements,
    attributes, expressions, statements); `span.rs` and `diagnostic.rs` the
    positions and the reports.
  - `rules/` holds one module per lint rule. Each `check` states, over a spec
    function, exactly the diagnostics it reports for a node.
  - `visitor.rs` runs the syntax-only rules over the JSX nodes of a program;
    `semantic_visitor.rs` runs the scope-aware rules as a state machine over
    the events of a traversal, each event carrying the symbols its names
    resolve to.
  - `expression.rs`, `css.rs`, `utils.rs` and `text.rs` hold the text
    functions the rules and the compiler share.
  - `ssr.rs`, `dom.rs` and `options.rs` hold the server-side template
    builder, the DOM block context and the transform options;
    `ssr_element.rs` renders native elements for the server, each function
    stated as the exact sequence of template text, values and helper
    registrations it produces; `ssr_component.rs` renders components:
    Solid's control-flow ones (`For`, `Show`, `Switch`, `Portal`, ...) and
    any other with its props object.
  - `dom_output.rs` renders a DOM transform result to code: the cloned
    template with its declarations, inserts and binding effects, a text
    literal, or an array of child results, with the templates and helpers
    it adds to the block context.
  - `dom_element.rs` holds the attribute side of native elements in the
    DOM transform: whether an element needs a variable at run time, and the
    code for refs, event handlers (delegated or listened to), directives,
    forced attributes and properties, and inner content.
  - `dom_component.rs` builds a component's props object for the DOM
    (static properties, then getters, merged after spreads), its children
    as one expression, and the `createComponent` call.
  - `dom_node.rs` and `ssr_node.rs` hold what the two transforms make of
    text, expressions in braces, spread children and fragments.
  - `program.rs` decides what a compiled module is prefixed with: the
    helper imports still missing, which existing import to extend, the
    template declarations and the `delegateEvents` call.
  - `source.rs` holds the kind of a source (JavaScript or TypeScript,
    module or script, with or without JSX).
  - `name_set.rs` gives contracts to the ordered sets of `indexmap` that the
    contexts keep their helpers and delegated events in.
- `tests/` runs the library on concrete inputs.
- `app/` is the unverified edge: it parses source with oxc, converts the AST
  into the library's model, walks it with oxc's visitor to produce the nodes
  and events the library consumes, and carries the serde forms of the rule
  configurations.

Whether an expression is reactive is not decided here: the functions
that wrap a value in a getter or an effect take that verdict as an
argument.

The public proof functions named `lemma_*` state the laws the library keeps
across calls, such as that linting two parts of a program one after the
other is linting the whole, or that registering a helper twice is
registering it once.
