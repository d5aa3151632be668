# promptcmd

A manager and runner for prompt files: a `.prompt` file holds a YAML
frontmatter (model, input schema, output format) and a Handlebars template,
and runs like a command with its own arguments.

Layout:

- `src/` is the library, verified with Verus:
  - `text` – string operations with their specifications (trim, lines,
    search, joining).
  - `config` – directories of the application and where files are looked
    for (`appconfig_locator`, `bin_locator`, `promptfile_locator`,
    `locator`), the configuration model (`appconfig`, `providers`), the
    environment snapshot, and name resolution (`resolver`): a name resolves
    to a provider, a variant or a group, with settings layered from defaults,
    environment, configuration, prompt file and invocation.
  - `dotprompt` – cutting a prompt file into frontmatter and template, the
    input and output schemas, command-line arguments of every input type,
    the inputs a template sees, rendering, the arguments of the template
    helpers, and the JSON document that asks for a structured answer (written by
    serde_json).
  - `executor` – the execution of a prompt as a state machine (`flow`):
    from each event (rendered prompt, resolution, usage, cached answer,
    reply) to the next action (resolve, fetch usage, look up the cache, call
    the model, show, fail); loading a prompt from what the store gave, cache keys, code
    extraction from answers (also from streams, with the extractor proved
    to follow the fences of the text), the state of streamed answers and
    the statistics record of an answer.
  - `lb` – the weighted load balancer over the members of a group.
  - `installer` – where prompts are installed as links, refusing paths that
    leave the install directory.
- `app/` is the program around it: reading files and the environment, the
  YAML and TOML parsers, the command line, the template helpers, the
  statistics store that also serves cached answers, and the calls to the
  models.
- `tests/` exercise the library on concrete values.
