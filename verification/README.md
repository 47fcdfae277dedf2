# release_knock

Watches the latest GitHub release of a list of repositories and alerts
Slack and WeChat webhooks when a repository publishes a new one.

- `src/` is the verified library (Verus): the data model, the decisions of a
  release check (a state machine over the release store and the alert
  channel), the per-tick retry policy, the GitHub API headers, and the exact
  webhook requests. Its laws are the `lemma_*` proof functions.
- `app/` is the program around it: command line, logging, configuration
  file, HTTP, the store's disk I/O, channels and task plumbing.
- `tests/` runs the library on concrete values.
