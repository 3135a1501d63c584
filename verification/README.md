# avmux

Merges the video of one file and the audio of another into one output file,
copying the streams or re-encoding them with NVENC and FFmpeg.

The library under `src/` holds, verified, what the muxer decides:

- `codec`: the codec configuration and its builders;
- `file`: the media files and the C-string check of their urls;
- `error`: the errors, and which FFmpeg errors only report a drained codec;
- `plan`: which source streams go to the output, on which output streams,
  and the settings of the video and audio encoders;
- `convert`: the state machine that drives one output stream's decoder,
  audio sample FIFO and encoder, re-chunking audio into the encoder's frame
  size with a running sample clock;
- `demux`: the state machine that reads one source file packet by packet;
- `mux`: the state machine of a whole run, and the `Mux` trait;
- `fifo`: what the FIFO's answers mean.

`app/` carries these decisions out with `ffmpeg-next`: it opens the files,
drives the state machines, and performs each FFmpeg call they ask for.
