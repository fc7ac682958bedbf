# nexus

The universal library for Nexus components, verified with Verus.

- `src/authority.rs`: the two socket authorities, the file mode each is bound
  with and the peers each answers.
- `src/configuration.rs`: the configuration lifecycle (ordinary Configure,
  meta Configure, meta reversal) and its laws over any history of transitions.
- `src/relocation.rs`: the owner's declaration that a store was moved.
- `src/situation.rs`: the record of where a Nexus actually ran, and whether a
  store now being opened is a carried copy.
- `src/parser.rs`: the order in which a parsed document's roots are read,
  the report of a parse error, and the Assert record heads and edge arity.
- `src/renderer.rs`: the reply text buffer, one expression per line, and the
  stable codes of daemon-side errors.
- `src/text.rs`: string equality and `trim` from std, with White_Space spelled
  out.

Turning NOTA text into a document of roots, decoding a root into a Signal
request, and rendering a Signal reply or a local diagnostic as NOTA text are
the work of the NOTA codec and the Signal contract crates, which belong to the
Nexus workspace and are not dependencies of this crate. The parser and the
renderer here take what those crates produce (roots, head atoms, rendered
expressions) and verify the decisions made around it.
- `app/`: reading the process id and kernel identities from the running
  system, and the archived (rkyv) and error (thiserror) forms of the records.
