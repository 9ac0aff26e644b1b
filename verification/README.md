# reddit_watcher

A window that watches Reddit for new submissions, shows the latest of them and
has them sent by mail. Its logic is a library whose contracts Verus proves.

- `src/settings.rs`: the state of the controls, and the settings it stands for
- `src/interval.rs`: intervals, held as the bits of doubles
- `src/filter.rs`: the filter on titles, compiled by `regex`
- `src/gui.rs`: what each change of a control does and asks for
- `src/mailer.rs`: changes to the settings of a running mailer
- `src/posts.rs`: the last posts, kept in a `ringbuf` ring buffer, and their lines
- `src/watcher.rs`: the steps of the thread that receives submissions
- `src/laws.rs`, `src/history.rs`: what holds over any course of events
- `app/`: the program, which draws the window, runs the thread and performs what
  the library asks for; it takes the watcher and the mailer from the crate `r`
