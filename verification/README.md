# projbotv3

A chat bot that plays `vid.mp4` in a channel: the video is cut into
five-second animated images, which are uploaded one after the other into a
single message, while the sound track plays in a voice channel.

- `src/` is the verified library: the upload request of a frame and its
  two-phase sending (`upload`, over the multipart writer in `multipart`),
  the frame timing (`pacing`), command recognition (`commands`), the grouping
  of still images into animated images (`encode`) and decimal text
  (`decimal`).
- `app/` runs the bot: files, ffmpeg, the GIF encoder, the TLS connection,
  the chat and voice clients, and the clock.
- `tests/` exercises the library on concrete values.
