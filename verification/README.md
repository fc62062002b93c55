# niralis_session_worker

The session worker of the Niralis display manager: the part that, after PAM
has authenticated a user, resolves the user's Unix identity, drops
privileges in the session child, checks the child's isolation, binds the
session to its logind session and owned VT, and watches the payload's
transient systemd scope until its boundary is provably empty.

- `src/` is the verified library. Every decision the worker takes is a
  function with a contract there: identity and group resolution
  (`identity`), the credential drop (`privilege_drop`), the isolation policy
  (`isolation`), logind answers (`logind`), the payload scope's cgroup text
  and paths (`cgroup`, `payload_scope`), the invocation-bound operations on
  the pinned unit (`invocation`), scope creation checks (`scope_launch`),
  the launch sequence (`launch`), the control channel (`control`), session
  termination (`termination`), runtime checks (`runtime`) and the test
  harness's line protocol (`fixture`).
- `app/` holds what talks to the operating system: libc, libsystemd, the
  system bus through `zbus`, and the file system.
- `tests/` exercises the library, mostly through scripted stand-ins for the
  system.
