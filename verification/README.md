# video_noise

A verified library for a video noise analyzer of v4l2 devices, written in
Verus, and the GStreamer/Slint application around it.

`src/` holds the verified logic:

- `capabilities`: the raw-video capabilities that the devices report, the
  selection of a resolution and a frame rate among them, and their texts;
- `noise_tracking`: the noise window configuration, the per-frame decisions
  that gather windows into a stack and trigger an evaluation once every
  `n_frames` frames, and the extraction of the window out of an RGB frame;
- `pipeline_control`: play/pause decisions;
- `errors`: error types and their messages, and the check that refuses a
  second link of the GUI to a pipeline;
- `screenshot`: screenshot file names;
- `decimal`: decimal rendering of integers.

`app/` holds the program: device queries, the GStreamer pipeline, the GUI
callbacks, threads, and the floating-point noise statistics. It expects the
Slint UI description `ui/app-window.slint` and the pause image
`ui/assets/cat.jpg`.
