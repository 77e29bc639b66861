# starry

Verified rules of two parts of StarryOS:

- the build tool: what its commands have done and in which order, how test
  suites run, how QEMU arguments, wave files and USB captures are read and
  written;
- the usbfs files of the kernel: which interfaces can be claimed, which
  endpoints can be used, and how requests from user space are served.

The library does no input or output. A command is a plan, a list of outside
work that is done in order up to the first failure; what one piece of work
gives is carried on to the work that needs it. A test run or a usbfs request
is a series of steps: each step names outside work, and the method that takes
its outcome gives the next step.

| Directory | What it holds |
| --- | --- |
| `src/` | the library, with contracts and proofs |
| `src/usbfs/` | the usbfs files |
| `tests/` | tests of the library |
| `app/` | command line, files, processes, locks and devices around it |

What is trusted: `src/usbfs/events.rs` takes the bits of two `axpoll` events
as they are in Linux.
