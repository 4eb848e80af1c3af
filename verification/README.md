# ttd

The verified core of a literature review engine.

A review is made in stages. Drafts are written side by side, each is judged, searched for gaps and
refined step by step, and the drafts are merged best first. A long review is written under a plan
that won a tournament. The merged synthesis is then put in order: sources are traced back to their
papers, quotes are checked against the stored texts, labels are computed from the papers behind a
claim, and members of the panel that no claim cites are brought in by a revision.

`src/` holds what decides and computes, with contracts that Verus proves:

| Modules | Subject |
| --- | --- |
| `artifact`, `adapter`, `fitness`, `term_sheet`, `mod_types` | the values that pass through the engine |
| `post_process`, `quotes`, `verification`, `inherit`, `chain` | sources, quotes, labels, and the course of post-processing |
| `plan`, `xml`, `lints`, `ratio`, `plan_prompts`, `ranking`, `tournament` | plans: reading, checking, ranking, the tournament |
| `guards`, `run`, `trajectory` | budgets and the course of a stage |
| `markdown`, `prompts` | the graph as a document, and every prompt, to the letter |
| `text` | the operations on text that the others are stated with |
| `laws` | what holds of several functions together |

`app/` makes the calls: it asks the model, reads the clock, looks sources up and hands the answers
to the library. `tests/` runs the library on concrete values.

Outside the proofs stand the calendar and clock of `chrono`, and how the standard library
classifies and lowercases characters beyond ASCII. Each is declared where it is used, with what is
claimed of it.
