# autosubs

The verified core of the AutoSubs subtitle backend.

- `src/` — the library, verified with Verus:
  - `text`: Unicode whitespace, trimming, splitting into tokens;
  - `language`: normalisation of Whisper language codes and the language table;
  - `translate`: translation prompts, reply cleaning, the retry policy, selection
    of segments to translate and regeneration of their words;
  - `batch`: batching of segments into one request and splitting the reply;
  - `srt`: decimal rendering and SubRip documents;
  - `paths`: allowed-directory checks and transcript file-name checks.
- `app/` — the Tauri application: commands, HTTP requests, file system access,
  and the floating-point timing of words and subtitles.
- `tests/` — tests of the library.
