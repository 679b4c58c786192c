# syncbox

Building blocks of concurrent programs, verified with Verus.

The library in `src/` holds the logic of each utility as the state of one monitor.
An operation is one critical section, taken through `&mut`. Its contract says how
the state changes and what has to happen outside: a thread to start, to park or to
wake, a callback to call. An operation that may block is one turn of its waiting
loop. A queue that is used inside another monitor, through the traits `Queue` and
`SyncQueue`, leaves it to that monitor to say whom to wake.

- `linked_queue`: a bounded first-in first-out queue, with timeouts.
- `delay_queue`: a queue whose values come out once their delay has expired.
- `thread_pool`: pools of worker threads, and scheduled tasks.
- `future`: futures with several consumers, which can be canceled.
- `util::asynch`: futures and streams with callbacks on both sides.
- `util::atomic`: atomic boxes.
- `locks`: parking a thread, and the end of a timed wait.

What holds over several operations is stated by the proof functions whose names
begin with `law_`.

`app/` puts the monitors behind mutexes and does what they ask for with threads and
condition variables.
