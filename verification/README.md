# rfirma

The decisions of a PAdES signing desktop client, and of the errands that
electronic offices open on it through `afirma://`, written in Verus and
proved against their contracts.

- `src/` is the library: the closed catalogue of `SAF_` answers and the
  frontier that maps every situation to one code; the protocol's codec; the
  registry of certificate handles and of opened documents; the three-phase
  signing cycle and its session seal; the errand of a site, from the launch
  and its channel to the single answer it gets; the tray of recent
  documents; the configuration and the two files of memory; the local CA's
  trust in the browsers' stores.
- The token, the native bridge, the disk and the network are reached through
  functions and traits the host hands in; what the library proves holds for
  whatever they answer.
- `app/` is the host's thin side: the process, the disk, the clock, the
  locks and the reply handles.
- `tests/` run the library on concrete values.
