# key_usage

Self-service usage pages for the holder of a client key: what a key session
may read, which accounts lie in its scope, how quotas and loaded usage are
attached to those accounts, and what each page shows of them.

`src/` is verified with Verus. Every function states its result in its
contract; the properties that span several functions are public proof
functions:

- `text`: whitespace, trimming, ASCII case folding and string order.
- `time`: instants, ranges, the start of the China day, and the two calls
  into chrono (reading an RFC 3339 instant, and moving an instant back by a
  number of seconds).
- `keys`: sessions and keys; every query is bound to the session's own key.
- `model`, `observability`: query types, the filters and reads behind the
  overview and record pages, and the checks on query parameters.
- `scope`: the sorted, duplicate-free account scope of a key (the members of
  its enabled routing groups and of the groups granted to it, the latter
  being the accounts it holds a grant on), binary search in it, and paging
  (`lemma_paging_neither_skips_nor_repeats`, `lemma_detail_exactly_in_scope`).
- `accounts`: quota classification through the whole snapshot pipeline
  (`lemma_snapshot_quotas_classified`),
  usage windows, and attaching loaded usage to its own account
  (`lemma_usage_comes_from_own_account`).
- `presenter`, `account_pages`: what a key holder is shown, with identities
  masked without a grant (`lemma_mask_hides_middle`,
  `lemma_capabilities_need_grant`).
- `routes`, `account_operations`: the route table of the namespace, from
  which app/ builds the axum router that serves it. The lemmas are about the
  table, not about axum's matching: the namespace root and a catch-all below
  it answer any method as not found (`lemma_namespace_always_answers`), and
  each page's path appears once, for `GET` alone
  (`lemma_pages_answer_only_get`).

`app/` is the unverified shell: the async service that awaits the stores and
providers, the axum handlers, the serialisable views, and the floating-point
success rates and percentages.

`tests/` runs the library on concrete values.
