# now

`now` runs project commands inside ephemeral, project-aware containers.

- `src/` is the verified library (Verus): image inference and toolchain
  selectors (`image`), image-reference splitting, container configuration and
  the run stages of the Docker executor (`docker`), backend detection
  (`detect`), the `.now.yaml` model (`config`), the decisions of the
  subcommands and configured pipelines (`workflow`), errors (`error`), the
  parsed command line (`cli`) and styling constants (`ui`).
- `app/` is the command-line program around it: argument parsing, reading
  `.now.yaml`, probing the file system and environment, talking to the Docker
  daemon, and the terminal output.
- `tests/` exercises the library.
