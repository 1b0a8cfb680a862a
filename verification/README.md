# chromiumoxide

Drives pages of a browser over the Chrome DevTools Protocol.

The library in `src/` is verified with Verus. It decides what each operation on a page
or an element asks for, in which order, and what it makes of the answers. It does no I/O.
An operation is a `Step`: it asks for something (a command to the page, the URL of a
frame, the time, a computation in floating point), it has ended, or it gives up. Whoever
runs it carries the request out and calls `proceed` with the answer.

The contract of an operation is a `Prog`, a tree that holds the whole conversation: every
request, and for every answer what comes after it. `follows(step, prog)` says that a step
and all that comes after it do just what the tree says.

| Module | |
| --- | --- |
| `flow`, `sequence`, `laws` | conversations, how they are put together, and what can be said of them |
| `protocol`, `replies` | what can be asked for and answered |
| `cdp` | the commands of the protocol, their parameters, and conversions between them |
| `handler` | the session of a page: mouse, keyboard, searches, evaluation |
| `element` | elements: where they are, what is read of them, how they are used |
| `page`, `evaluate`, `contents`, `cookies`, `screenshot`, `screencast`, `stealth` | pages |
| `js`, `json`, `text`, `names`, `number`, `layout`, `error`, `outside` | values, and the calls into other crates |

Numbers that need not be whole are carried as bits (`number::Num`). The library hands
them on; it neither compares them nor computes with them.

The crate in `app/` runs the operations with `tokio`: it speaks to the handler of a
target over channels, puts commands and results into JSON, listens to events and does the
arithmetic in floating point.
