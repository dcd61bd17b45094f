# samesame

Forwards keyboard, mouse and trackpad input from a Mac to a Windows machine.

- `src/` is the verified library: the event protocol (`protocol`), the
  client's state (`state`), the client's decision on each captured event and
  gesture (`client`), the commands of the client's user interface
  (`commands`), the server's answer to each message (`server`) and the
  translation of events into Windows input records (`simulator`).
- `app/` is the program around it: the server's TCP loop, the wire encoding
  (bincode over serde copies of the protocol types), the client's connection,
  the capture of input on macOS, the hand-over of input records to Windows,
  and the binary64 arithmetic of pointer, wheel and gesture values.
