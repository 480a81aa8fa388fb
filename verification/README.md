# iced_blocks

Building blocks for Iced applications — a tabbed browser over a Servo
webview, a native (WRY) webview, a frame widget, a tool-flyout button and a
3D Minecraft skin viewer — with their logic verified by Verus.

## Layout

- `src/` is the verified library:
  - `text`, `url_bar`: trimming and the URL-bar fallback chain (direct URL,
    file path, domain, search), over the `url` crate;
  - `browser`: the tab model of the browser, a state machine from message
    to next state and commands, with its invariant and laws;
  - `flyout`: the tool-flyout button's interaction state machine;
  - `input`, `cursor`: routing of input events to a page, click-to-focus,
    key translation, and cursor mapping;
  - `resize`: debouncing of webview resize requests;
  - `frame`, `placement`: the frame widget's options and the exact
    texture-coordinate transform of each content fit and alignment;
  - `webview`, `native_webview`: construction-time webview configuration;
  - `skin`, `uv`: skin handles and the skin texture layout.
- `tests/` runs the library on concrete values.
- `app/` is the toolkit side: widgets, GPU pipelines, the Servo and WRY
  controllers, floating-point geometry, and the browser's `main`.
