# Kinesis trigger

A trigger that runs a Spin component on the records of an AWS Kinesis stream.
The decisions of the trigger are a verified library; the tasks that call Kinesis
and run components are ordinary Rust around it.

## Layout

- `src/config.rs`: the manifest section and the settings made from it
- `src/detector.rs`: which shards of a stream get a processor, as a state machine
- `src/processor.rs`: how one shard is read, as a state machine
- `src/record.rs`, `src/record_processor.rs`: records, and calls of the component
- `src/trigger.rs`: the receive loops, and how the trigger ends
- `src/component_macro.rs`: the text that `#[kinesis_component]` expands to
- `src/guest.rs`: a component that prints its records
- `src/text.rs`: text operations of the standard library
- `src/detector_laws.rs`, `src/processor_laws.rs`, `src/trigger_laws.rs`: what holds
  of every run
- `app/`: the asynchronous tasks

A state machine hands out an action; the task performs it and hands back what
came of it as the next event.

## Settings

| Name | Default | |
|------|---------|-|
| `batch_size` | 10 | the most records to fetch from a shard at once |
| `shard_idle_wait_millis` | 1000 | the wait after a check that found nothing or failed |
| `detector_poll_millis` | 30000 | the wait between checks for new shards |
| `shard_iterator_type` | `LATEST` | where to start reading a shard |

Both waits are kept between 100 and 300000 milliseconds.
