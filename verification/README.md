# servo_allocator

Introspection of the process-wide memory allocator, for memory profiling: the size of a heap block,
the allocator's reports on its heap, and the pointers that were to be measured but that the process
heap does not own.

`src/` is the library, verified with Verus. It decides everything and touches nothing: an operation
that has to know something about the process is a value that asks for one thing at a time and is
resumed with the answer.

| Module | Content |
| --- | --- |
| `config` | what a build is for, and the platform that follows from it |
| `tracking` | what the tracker of allocations is asked to do |
| `address` | alignment, and where the base of an over-aligned block can lie |
| `region` | regions of pages, and which of them can be read |
| `measure`, `measure_laws` | measuring a block, and what holds of every measurement |
| `foreign`, `foreign_laws` | the record of foreign pointers, and what holds of it |
| `reports`, `reports_laws` | jemalloc's statistics, and what holds of reading them |
| `hex` | numbers in hexadecimal |

`app/` carries the decisions out: it calls jemalloc, the C library or Windows, holds the global
state, and selects the global allocator.
