# pluggable_composition

Verified logic of a Crossplane composition project:

- `compose`: the composition function that turns a `WebApp`
  (`platform.example.com/v1alpha1`) into a Deployment and a Service.
- `pdb`: the plugin that adds a PodDisruptionBudget for the Deployment an
  earlier pipeline step desired.

Resources travel as structured values (`value`), the shape of a protobuf
`Struct`. Typed models (`meta`, `apps`, `service`, `policy`, `webapp`) are
read from and written to them field by field (`codec`); each model proves that
reading what it wrote gives it back, and a value that does not read is refused
with the message a serde/JSON deserializer gives for it (`text` writes the
numbers and quoted strings in those messages). `messages` holds the parts of the
RunFunction request and response the functions use, `sdk` builds responses
and updates resources the way the Crossplane function SDK does, and `laws`
proves what holds of the functions across all inputs.

`app/` holds what stays unverified: the gRPC server (`tonic`,
`function-sdk-rust`), protobuf decoding and encoding (`prost`), the
conversion of protobuf numbers (floating point) into the library's values,
and logging.

The one trusted item is `text::debug_string`, which quotes a string with
std's `Debug` formatting.
