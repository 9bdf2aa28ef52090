# sillymic-host

The host side of SillyMic, a LAN microphone bridge from a PC to an iPhone:
the PC captures its microphone, encodes it as Opus and streams it over
WebRTC to one mobile client that pairs with a six-digit PIN.

- `src/` is the verified library (Verus): the PIN rule, the single pairing
  session and its time-to-live, the one-client connection slot, the
  `/signal` conversation as a state machine, websocket frame screening,
  input-device and stream-configuration choice, 48 kHz framing of captured
  audio, and the `doctor` report.
- `app/` is the program around it: command-line parsing, the axum server,
  WebRTC peers, microphone capture with cpal and Opus encoding, JSON
  encoding of the library's values, and the loop that performs what the
  signalling state machine decides.
- `tests/` exercises the library.
