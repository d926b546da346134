# luogu

A command line tool for practising Luogu problems locally: it fetches a
problem statement and its samples, judges a local C++ or Python solution
against the samples, imports training sets and contests, and shows users,
records, solutions, tags and rankings.

The decisions and text handling of the tool form a library verified with
Verus; the program around it does the network, file and process work.

- `src/` — the verified library
  - `text.rs`: characters, whitespace tokens, trimming, lines, decimal text
  - `judge.rs`: output comparison, the wrong answer report, source and
    compiler selection (with the settings of `judge_cpp.json`), verdicts,
    the run summary and the sample list
  - `problem.rs`: the Markdown statement, reading the problem API and the
    page payload, the files of a problem directory
  - `requests.rs`: addresses, queries, the submission, where a response
    keeps its data, and the step-by-step fetch of a problem
  - `display.rs`, `labels.rs`: what the listings show
  - `config.rs`, `storage.rs`, `paths.rs`: the template setting, data
    files and paths
  - `serve.rs`: routing of the local catalog server
  - `actions.rs`, `cli.rs`: what each command decides from its options
  - `json.rs`, `models.rs`: the data read from Luogu
- `tests/` — tests of the library
- `app/` — the `luogu` program: argument parsing, HTTP, files, processes
  and terminal colors

Run `verus` on `src/lib.rs` to check the proofs.
