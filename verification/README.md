# ddcutil-varlink

A varlink service for the control of DDC monitors through libddcutil, with a core
that is verified with Verus.

`src/` holds the core: everything the service decides. It makes no call of
libddcutil and does no input or output itself. Where a call is needed it says so, as
a plain value (`device::DdcRequest`), and takes what came of it, as a plain value
too (`device::DdcReply`).

| Module | What it holds |
| --- | --- |
| `text`, `textmap`, `json`, `edid` | numerals, C strings, maps, JSON objects, EDIDs in Base64 |
| `device` | requests to libddcutil and its replies |
| `ddcutil` | errors, lists of displays, the search for a display |
| `status`, `vcp`, `dpms`, `capabilities` | how messages, features, power modes and capabilities are read |
| `events`, `polling`, `poller` | events, what changed between two looks, the polling loop |
| `channel`, `subscribers`, `subscription` | who receives events, and the stream to one client |
| `service`, `controller` | the state of the service, and that of the library object |
| `varlink_impl`, `operation`, `methods` | replies to clients, and each method from its call to its reply |

A method is a machine: `methods` begins it, and `operation::Operation::resume` takes
it from step to step. What it does on each reply is stated by a function on its
model (`OperationModel::next`); proof functions beside it state what holds of every
course: an opened display is closed, one reply is given, an event is handed out for
what was written and for nothing else, and the method comes to its end.

Each subscriber has a sending side of its own (`channel::EventSender`), with an
account of what was handed to the channel. `subscribers` states over these accounts
that a broadcast sends its event to every subscriber once, and that who stays
subscribed has received every event, in order.

`tests/` runs the core with the real crates. `app/` is the program around it: the C
interface of libddcutil, the threads and locks, the varlink interface and `main`.
