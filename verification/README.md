# whop

The verified core of an unofficial, single-site macOS desktop wrapper around
whop.com, written in Verus.

`src/` holds the decisions the wrapper makes, each with a contract that Verus
proves:

- `web`: which top-level navigations and popups the webview follows, which
  URLs go to the system's handler, and the scheme-and-host form of a URL that
  is all the log ever sees.
- `filename`: how a server-provided download name becomes a safe file name.
- `dedup`: how ` (n)` is added before the extension so that a download never
  overwrites an existing file (existence is asked of a caller-supplied oracle);
  when the name and every numbered candidate are taken, no name is given and
  the download is canceled.
- `download`: the full download name for a URL, the completion notice, and the
  record of the last finished download.
- `menu`: the native menu bar and the routing of menu events by item id.
- `window`: the main window's configuration and what closing it does.
- `text`: text comparison and decimal notation.

`app/` is the Tauri shell: it turns webview callbacks into plain values,
calls the library, and carries out what comes back (opening URLs, saving
files, notifications, zoom).
