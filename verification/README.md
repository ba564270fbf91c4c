# argus_ui

The interface of Argus, a log viewer with an analysing agent and an assistant: the
state behind its windows, dialogs and inputs, and the rules by which that state
changes. The library is written in Verus. Each function states what it does in its
contract, and the proofs are part of the sources.

## Layout

- `src/` is the verified library. It holds no window system.
  - Text and inputs: `text`, `text_selection`, `text_input`, `input_behavior`,
    `input_field`, `keystroke`.
  - Markdown: `markdown_events` reads a text, `markdown` builds the tree,
    `markdown_inline` and `markdown_blocks` say how it is shown.
  - The analysis: `agent`, `agent_event`, `agent_stream`, `agent_window`,
    `agent_view`, and `agent_dialog`, which starts one.
  - The assistant: `assistant_model`, `assistant_panel`, `assistant_view`,
    `assistant_laws`, `mentions`, `mention_query`.
  - Settings and connections: `ai_config`, `ai_settings`, `ai_settings_editor`,
    `ai_settings_view`, `log_matcher`, `connection_dialog`.
  - The rest: `calendar`, `clock`, `datetime_picker`, `context_menu`, `dialogs`,
    `dropdown`, `icon`, `icon_button`, `metrics`, `placeholders`, `theme`.
- `tests/` runs the library on given values.
- `app/` puts it on the screen. A view shows the library's state as plain elements and
  turns messages into changes and effects; `screen` draws the elements and performs
  the effects with gpui. Lengths in pixels are worked out in `geometry`, since they are
  floating point numbers.

## What is not proved

Calls into other crates stand behind small functions whose contracts are taken on
trust: dates and times (chrono), icons (icondata), reading Markdown (pulldown-cmark),
JSON text (serde_json) and random ids (uuid), with a few functions of the standard
library. The comment above each says what is claimed.
