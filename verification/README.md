# meeting_transcriber

The logic of a desktop meeting transcriber (live capture of system audio
and microphone, file upload, and a local transcription service), written
in Verus with its contracts proved.

- `src/` is the verified library:
  - `audio` — the recording session guard (at most one recording at a
    time), the start and stop sequence (microphone-only recording where
    the platform has no system-audio capture; signal the capture before
    joining it), capture and normalisation file names, the ffmpeg
    loudness-normalisation command, splitting the loopback byte queue
    into frames and decoding 8/16/24-bit integer and 32-bit float PCM.
  - `file_upload` — the extension of a path (under Unix or Windows path
    conventions, as the platform has them), the accepted formats, and
    the upload flow (tool check, extension, existence, conversion,
    measurement) as a state machine.
  - `sidecar` — the service's command line and URLs, the readiness poll,
    the transcribe/diarize/reconcile pipeline and the checks on the
    segments it returns.
  - `decimal`, `text` — integer rendering and parsing, string helpers.
- `app/` is the Tauri shell: devices (cpal, WASAPI), processes (ffmpeg,
  the Python service), HTTP, JSON and the floating-point sample
  processing. It drives the library's state machines.
- `tests/` exercises the library.
