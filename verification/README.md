# photobooth

The decisions of a photo booth server, written in Rust and proved with Verus.

The server drives a camera and a GPIO line on behalf of gRPC clients and serves
the camera's preview and the last picture over HTTP. `src/` holds what it decides:
what each request does to the booth, which outside call it makes next, what it is
answered, and what the preview stream sends. `app/` holds what it cannot decide:
the calls into the camera library, the GPIO chip, the locks and the two servers.

A request advances one step at a time. A step takes the outcome of the last outside
call and gives the next call to make, or the answer; between two steps other
requests may change the booth.

| module        | what it holds                                                     |
|---------------|-------------------------------------------------------------------|
| `booth`       | the state that requests share                                     |
| `camera`      | the slot for the camera in use, and what cameras report           |
| `protocol`    | outside calls, their outcomes, answers                            |
| `status`      | the failures that a request is answered with                      |
| `acquire`     | how a request gets hold of a camera                               |
| `preview`     | starting and stopping the preview, and the task that shoots it    |
| `capture`     | taking a picture                                                  |
| `config`      | setting the camera's options                                      |
| `gpio`        | driving an output line                                            |
| `listing`     | listing the cameras                                               |
| `request`     | every request, advanced one step at a time                        |
| `http`        | serving the picture                                               |
| `mjpeg`       | serving the preview as a stream of JPEG parts                     |
| `laws`        | what holds of requests and the preview as a whole                 |
| `stream_laws` | what holds of the preview stream as a whole                       |
